use repac_save::save_data_info::{get_save_slot_base_add, SaveDataIntType, SaveDataVar};
use repac_save::save_file_parser::{
    get_all_save_file_vars, get_basic_save_file_vars, get_save_file_variable,
};

#[test]
fn every_variable_resolves_in_every_slot() {
    for slot in 1..=4u8 {
        let all = get_all_save_file_vars(slot);
        assert_eq!(all.len(), 108);
        let base = get_save_slot_base_add(slot);
        for descriptor in &all {
            assert_eq!(descriptor.slot_base_add, base);
            // Resolving the same identifier again yields the same descriptor.
            let again = get_save_file_variable(descriptor.var, slot);
            assert_eq!(again.var, descriptor.var);
            assert_eq!(again.offset, descriptor.offset);
            assert_eq!(again.int_type, descriptor.int_type);
            assert_eq!(again.variable_name, descriptor.variable_name);
            assert_eq!(again.variable_name_simple, descriptor.variable_name_simple);
            assert!(!descriptor.variable_name.is_empty());
            assert!(!descriptor.variable_name_simple.is_empty());
        }
    }
}

#[test]
fn descriptors_are_unique_per_variable() {
    let all = get_all_save_file_vars(1);
    for i in 0..all.len() {
        for j in 0..all.len() {
            if i != j {
                assert_ne!(all[i].var, all[j].var);
            }
        }
    }
}

#[test]
fn known_descriptor_fields() {
    let lives = get_save_file_variable(SaveDataVar::Lives, 2);
    assert_eq!(lives.var, SaveDataVar::Lives);
    assert_eq!(lives.slot_base_add, 0x7BC8);
    assert_eq!(lives.offset, 0x46C);
    assert_eq!(lives.int_type, SaveDataIntType::I32);
    assert_eq!(lives.variable_name, "m_iStockNum");
    assert_eq!(lives.variable_name_simple, "Lives");

    let exists = get_save_file_variable(SaveDataVar::FileExists, 1);
    assert_eq!(exists.offset, 0x0);
    assert_eq!(exists.int_type, SaveDataIntType::Bool);
    assert_eq!(exists.variable_name, "m_bExist");

    let date = get_save_file_variable(SaveDataVar::SaveDate, 3);
    assert_eq!(date.slot_base_add, 0xF4F8);
    assert_eq!(date.offset, 0x18);
    assert_eq!(date.int_type, SaveDataIntType::ArrayText(16));

    let scores = get_save_file_variable(SaveDataVar::ScoreList, 1);
    assert_eq!(scores.offset, 0x80);
    assert_eq!(scores.int_type, SaveDataIntType::Arrayi32(40));

    let figures = get_save_file_variable(SaveDataVar::FigureDisplayInfo, 4);
    assert_eq!(figures.slot_base_add, 0x16E28);
    assert_eq!(figures.offset, 0x2BE8);
    assert_eq!(figures.int_type, SaveDataIntType::SFigureDisplayInfoArray(50));

    let keys = get_save_file_variable(SaveDataVar::KeyConfigP2, 1);
    assert_eq!(keys.offset, 0x3984);
    assert_eq!(keys.int_type, SaveDataIntType::Arrayi32(672));

    let rewards = get_save_file_variable(SaveDataVar::MissionRewardFlag, 1);
    assert_eq!(rewards.int_type, SaveDataIntType::Arrayi32(41));
}

#[test]
fn invalid_slot_falls_back_to_first_base() {
    let d = get_save_file_variable(SaveDataVar::Lives, 9);
    assert_eq!(d.slot_base_add, 0x298);
    assert_eq!(d.offset, 0x46C);
}

#[test]
fn basic_variables_are_the_curated_subset() {
    let basic = get_basic_save_file_vars(1);
    assert_eq!(basic.len(), 24);
    assert_eq!(basic[0].var, SaveDataVar::PlayTimeHours);
    assert_eq!(basic[1].var, SaveDataVar::PlayTimeMinutes);
    assert_eq!(basic[2].var, SaveDataVar::PlayTimeSeconds);
    assert_eq!(basic[7].var, SaveDataVar::Lives);
    assert_eq!(basic[23].var, SaveDataVar::PacAttackHighScore);
    // Every curated entry agrees with the full registry.
    for descriptor in &basic {
        let full = get_save_file_variable(descriptor.var, 1);
        assert_eq!(full.offset, descriptor.offset);
        assert_eq!(full.int_type, descriptor.int_type);
    }
}

#[test]
fn declaration_order_is_kept() {
    let all = get_all_save_file_vars(1);
    assert_eq!(all[0].var, SaveDataVar::FileExists);
    assert_eq!(all[1].var, SaveDataVar::SaveDate);
    assert_eq!(all[14].var, SaveDataVar::Lives);
    assert_eq!(all[107].var, SaveDataVar::JukeBoxModeCollab);
}

#[test]
fn declared_variables_fit_in_the_expected_file_size() {
    for slot in 1..=4u8 {
        let all = get_all_save_file_vars(slot);
        for descriptor in &all {
            let width: u64 = match descriptor.int_type {
                SaveDataIntType::Bool => 1,
                SaveDataIntType::U32 | SaveDataIntType::I32 => 4,
                SaveDataIntType::Arrayi32(n) => 4 * n as u64,
                SaveDataIntType::Arrayu8(n) => n as u64,
                SaveDataIntType::ArrayText(n) => n as u64,
                SaveDataIntType::SFigureDisplayInfoArray(n) => 8 * n as u64,
            };
            let end = descriptor.slot_base_add as u64 + descriptor.offset as u64 + width;
            assert!(
                end <= repac_save::EXPECTED_SAVE_FILE_SIZE as u64,
                "variable {} overruns the file",
                descriptor.variable_name
            );
        }
    }
}
