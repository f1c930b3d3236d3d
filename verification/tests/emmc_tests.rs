//! Command descriptor table tests.

use fat32_storage::emmc::{EMMCCommand, SdCardCommands, SdCardType, SdResult};

#[test]
fn go_idle_state_encodes_to_zero() {
    let c = SdCardCommands::GO_IDLE_STATE.get_cmd();
    assert_eq!(c.cmd_name, "GO_IDLE_STATE");
    assert_eq!(c.cmd_code, 0);
    assert_eq!(c.use_rca, 0);
    assert_eq!(c.delay, 0);
}

#[test]
fn read_single_sets_index_response_data_and_direction() {
    let c = SdCardCommands::READ_SINGLE.get_cmd();
    // Index 0x11 in bits 24..30, 48-bit response in bits 16..18,
    // is-data at bit 21, card-to-host direction at bit 4.
    assert_eq!(c.cmd_code, 0x1122_0010);
    assert_eq!(c.use_rca, 0);
}

#[test]
fn read_multi_adds_multi_block_and_block_count() {
    let c = SdCardCommands::READ_MULTI.get_cmd();
    assert_eq!(c.cmd_code, 0x1222_0032);
}

#[test]
fn write_multi_is_host_to_card() {
    let c = SdCardCommands::WRITE_MULTI.get_cmd();
    assert_eq!(c.cmd_code, 0x1922_0022);
}

#[test]
fn card_select_uses_busy_response_and_rca() {
    let c = SdCardCommands::CARD_SELECT.get_cmd();
    assert_eq!(c.cmd_code, 0x0703_0000);
    assert_eq!(c.use_rca, 1);
}

#[test]
fn all_send_cid_uses_long_response() {
    let c = SdCardCommands::ALL_SEND_CID.get_cmd();
    assert_eq!(c.cmd_code, 0x0201_0000);
}

#[test]
fn app_cmd_carries_a_settle_delay() {
    let c = SdCardCommands::APP_CMD.get_cmd();
    assert_eq!(c.cmd_code, 0x3700_0000);
    assert_eq!(c.delay, 100);
    let c = SdCardCommands::APP_SEND_OP_COND.get_cmd();
    assert_eq!(c.cmd_code, 0x2902_0000);
    assert_eq!(c.delay, 1000);
}

#[test]
fn send_scr_reads_data_from_the_card() {
    let c = SdCardCommands::SEND_SCR.get_cmd();
    assert_eq!(c.cmd_code, 0x3322_0010);
}

#[test]
fn application_commands_are_marked() {
    assert!(SdCardCommands::SET_BUS_WIDTH.needs_app_cmd());
    assert!(SdCardCommands::APP_SEND_OP_COND.needs_app_cmd());
    assert!(SdCardCommands::SEND_SCR.needs_app_cmd());
    assert!(SdCardCommands::EMMC_STATUS.needs_app_cmd());
    assert!(!SdCardCommands::READ_SINGLE.needs_app_cmd());
    assert!(!SdCardCommands::APP_CMD.needs_app_cmd());
    assert!(!SdCardCommands::GO_IDLE_STATE.needs_app_cmd());
}

#[test]
fn blank_command_is_empty() {
    let c = EMMCCommand::new();
    assert_eq!(c.cmd_name, " ");
    assert_eq!(c.cmd_code, 0);
    assert_eq!(c.use_rca, 0);
    assert_eq!(c.delay, 0);
}

#[test]
fn result_and_card_type_values_compare() {
    assert_eq!(SdResult::EMMC_OK, SdResult::EMMC_OK);
    assert_ne!(SdResult::EMMC_OK, SdResult::EMMC_TIMEOUT);
    assert_eq!(SdResult::EMMC_CARD_STATE(3), SdResult::EMMC_CARD_STATE(3));
    assert_ne!(SdResult::EMMC_CARD_STATE(3), SdResult::EMMC_CARD_STATE(4));
    assert_ne!(SdCardType::EMMC_TYPE_UNKNOWN, SdCardType::EMMC_TYPE_MMC);
}
