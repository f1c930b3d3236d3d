//! SD command descriptor table.
//!
//! The single source of truth for how each logical SD command is
//! encoded into the host controller's command register: a 6-bit
//! command index, a response-type selector, data-transfer and
//! direction flags, multi-block and block-count-enable flags, whether
//! the command needs the card's relative address, and a settle delay
//! in milliseconds. The lookup is pure and stateless.

use vstd::prelude::*;

verus! {

/// No response expected.
pub const RESP_NONE: u32 = 0;

/// A 136-bit response.
pub const RESP_136: u32 = 1;

/// A 48-bit response.
pub const RESP_48: u32 = 2;

/// A 48-bit response using the busy line.
pub const RESP_48_BUSY: u32 = 3;

/// The command-register word assembled from its fields: the command
/// index in bits 24 to 29, the response type in bits 16 and 17, the
/// is-data flag at bit 21, the transfer direction at bit 4 (set means
/// card to host), the multi-block flag at bit 5, and the
/// block-count-enable flag at bit 1.
pub open spec fn encode_cmdtm(
    index: u32,
    resp: u32,
    is_data: bool,
    dat_dir: bool,
    multi_block: bool,
    blkcnt_en: bool,
) -> u32
    recommends
        index < 64,
        resp < 4,
{
    (index * 0x0100_0000 + resp * 0x0001_0000 + (if is_data {
        0x0020_0000u32
    } else {
        0u32
    }) + (if dat_dir {
        0x10u32
    } else {
        0u32
    }) + (if multi_block {
        0x20u32
    } else {
        0u32
    }) + (if blkcnt_en {
        0x2u32
    } else {
        0u32
    })) as u32
}

/// Assembles a command-register word.
fn cmdtm(
    index: u32,
    resp: u32,
    is_data: bool,
    dat_dir: bool,
    multi_block: bool,
    blkcnt_en: bool,
) -> (r: u32)
    requires
        index < 64,
        resp < 4,
    ensures
        r == encode_cmdtm(index, resp, is_data, dat_dir, multi_block, blkcnt_en),
{
    index * 0x0100_0000 + resp * 0x0001_0000 + (if is_data {
        0x0020_0000u32
    } else {
        0u32
    }) + (if dat_dir {
        0x10u32
    } else {
        0u32
    }) + (if multi_block {
        0x20u32
    } else {
        0u32
    }) + (if blkcnt_en {
        0x2u32
    } else {
        0u32
    })
}

/// One wire-level command descriptor.
#[derive(Clone, Copy)]
pub struct EMMCCommand {
    /// The command's name, for diagnostics.
    pub cmd_name: &'static str,
    /// The assembled command-register word.
    pub cmd_code: u32,
    /// 1 when the command carries the card's relative address in its
    /// argument.
    pub use_rca: u16,
    /// Settle delay to apply after issuing, in milliseconds.
    pub delay: u16,
}

impl EMMCCommand {
    /// A blank descriptor.
    pub fn new() -> (r: Self)
        ensures
            r.cmd_name@ == " "@,
            r.cmd_code == 0,
            r.use_rca == 0,
            r.delay == 0,
    {
        EMMCCommand { cmd_name: " ", cmd_code: 0, use_rca: 0, delay: 0 }
    }
}

/// Result codes the host-controller protocol engine reports.
#[allow(non_camel_case_types)]
#[derive(PartialEq, Eq, Structural, Debug, Clone, Copy)]
pub enum SdResult {
    /// No error.
    EMMC_OK,
    /// General non-specific SD error.
    EMMC_ERROR,
    /// SD timeout error.
    EMMC_TIMEOUT,
    /// The card is busy.
    EMMC_BUSY,
    /// The card did not respond.
    EMMC_NO_RESP,
    /// The card did not reset.
    EMMC_ERROR_RESET,
    /// The card clock change failed.
    EMMC_ERROR_CLOCK,
    /// The card does not support the requested voltage.
    EMMC_ERROR_VOLTAGE,
    /// An application command failed.
    EMMC_ERROR_APP_CMD,
    /// No card is present.
    EMMC_CARD_ABSENT,
    /// A read failed.
    EMMC_READ_ERROR,
    /// Mounting failed.
    EMMC_MOUNT_FAIL,
    /// The card reported this state.
    EMMC_CARD_STATE(u32),
    /// No result.
    NONE,
}

/// SD card types.
#[allow(non_camel_case_types)]
#[derive(PartialEq, Eq, Structural, Debug, Clone, Copy)]
pub enum SdCardType {
    /// Unknown card.
    EMMC_TYPE_UNKNOWN,
    /// MMC card.
    EMMC_TYPE_MMC,
    /// Type 1 card.
    EMMC_TYPE_1,
    /// Type 2 standard-capacity card.
    EMMC_TYPE_2_SC,
    /// Type 2 high-capacity card.
    EMMC_TYPE_2_HC,
}

/// The logical SD commands.
#[allow(non_camel_case_types)]
#[derive(PartialEq, Eq, Structural, Debug, Clone, Copy)]
pub enum SdCardCommands {
    /// Reset the card to idle state.
    GO_IDLE_STATE,
    /// Ask every card for its identification.
    ALL_SEND_CID,
    /// Ask the card to publish a relative address.
    SEND_REL_ADDR,
    /// Set the driver stage register.
    SET_DSR,
    /// Switch card function.
    SWITCH_FUNC,
    /// Select the card by relative address.
    CARD_SELECT,
    /// Ask whether the card supports the supply voltage.
    SEND_IF_COND,
    /// Ask for the card-specific data.
    SEND_CSD,
    /// Ask for the card identification.
    SEND_CID,
    /// Switch signalling voltage.
    VOLTAGE_SWITCH,
    /// Stop a multi-block transfer.
    STOP_TRANS,
    /// Ask for the card's status.
    SEND_STATUS,
    /// Put the card into the inactive state.
    GO_INACTIVE,
    /// Set the block length.
    SET_BLOCKLEN,
    /// Read a single block.
    READ_SINGLE,
    /// Read multiple blocks.
    READ_MULTI,
    /// Send tuning block.
    SEND_TUNING,
    /// Start a speed-class recording.
    SPEED_CLASS,
    /// Set the block count for the next transfer.
    SET_BLOCKCNT,
    /// Write a single block.
    WRITE_SINGLE,
    /// Write multiple blocks.
    WRITE_MULTI,
    /// Program the card-specific data.
    PROGRAM_CSD,
    /// Set write protection.
    SET_WRITE_PR,
    /// Clear write protection.
    CLR_WRITE_PR,
    /// Ask for write-protection state.
    SND_WRITE_PR,
    /// First block to erase.
    ERASE_WR_ST,
    /// Last block to erase.
    ERASE_WR_END,
    /// Erase the selected blocks.
    ERASE,
    /// Lock or unlock the card.
    LOCK_UNLOCK,
    /// Announce an application command, no response.
    APP_CMD,
    /// Announce an application command to an addressed card.
    APP_CMD_RCA,
    /// General-purpose command.
    GEN_CMD,
    /// Marker: commands hereafter require a preceding APP_CMD.
    APP_CMD_START,
    /// Set the data bus width.
    SET_BUS_WIDTH,
    /// Ask for the SD status.
    EMMC_STATUS,
    /// Ask for the number of well-written blocks.
    SEND_NUM_WRBL,
    /// Ask for the number of erased blocks.
    SEND_NUM_ERS,
    /// Negotiate the operating condition.
    APP_SEND_OP_COND,
    /// Connect or disconnect the card-detect resistor.
    SET_CLR_DET,
    /// Ask for the SD configuration register.
    SEND_SCR,
}

/// The wire-level fields of each command: the assembled command
/// register word, the relative-card-address flag, and the settle
/// delay in milliseconds. The marker `APP_CMD_START` encodes nothing.
pub open spec fn cmd_descriptor(c: SdCardCommands) -> (u32, u16, u16) {
    match c {
        SdCardCommands::GO_IDLE_STATE => (
            encode_cmdtm(0x00, RESP_NONE, false, false, false, false),
            0,
            0,
        ),
        SdCardCommands::ALL_SEND_CID => (
            encode_cmdtm(0x02, RESP_136, false, false, false, false),
            0,
            0,
        ),
        SdCardCommands::SEND_REL_ADDR => (
            encode_cmdtm(0x03, RESP_48, false, false, false, false),
            0,
            0,
        ),
        SdCardCommands::SET_DSR => (
            encode_cmdtm(0x04, RESP_NONE, false, false, false, false),
            0,
            0,
        ),
        SdCardCommands::SWITCH_FUNC => (
            encode_cmdtm(0x06, RESP_48, false, false, false, false),
            0,
            0,
        ),
        SdCardCommands::CARD_SELECT => (
            encode_cmdtm(0x07, RESP_48_BUSY, false, false, false, false),
            1,
            0,
        ),
        SdCardCommands::SEND_IF_COND => (
            encode_cmdtm(0x08, RESP_48, false, false, false, false),
            1,
            100,
        ),
        SdCardCommands::SEND_CSD => (
            encode_cmdtm(0x09, RESP_136, false, false, false, false),
            1,
            0,
        ),
        SdCardCommands::SEND_CID => (
            encode_cmdtm(0x0a, RESP_136, false, false, false, false),
            1,
            0,
        ),
        SdCardCommands::VOLTAGE_SWITCH => (
            encode_cmdtm(0x0b, RESP_48, false, false, false, false),
            0,
            0,
        ),
        SdCardCommands::STOP_TRANS => (
            encode_cmdtm(0x0c, RESP_48_BUSY, false, false, false, false),
            0,
            0,
        ),
        SdCardCommands::SEND_STATUS => (
            encode_cmdtm(0x0d, RESP_48, false, false, false, false),
            1,
            0,
        ),
        SdCardCommands::GO_INACTIVE => (
            encode_cmdtm(0x0f, RESP_NONE, false, false, false, false),
            1,
            0,
        ),
        SdCardCommands::SET_BLOCKLEN => (
            encode_cmdtm(0x10, RESP_NONE, false, false, false, false),
            0,
            0,
        ),
        SdCardCommands::READ_SINGLE => (
            encode_cmdtm(0x11, RESP_48, true, true, false, false),
            0,
            0,
        ),
        SdCardCommands::READ_MULTI => (
            encode_cmdtm(0x12, RESP_48, true, true, true, true),
            0,
            0,
        ),
        SdCardCommands::SEND_TUNING => (
            encode_cmdtm(0x13, RESP_48, false, false, false, false),
            0,
            0,
        ),
        SdCardCommands::SPEED_CLASS => (
            encode_cmdtm(0x14, RESP_48_BUSY, false, false, false, false),
            0,
            0,
        ),
        SdCardCommands::SET_BLOCKCNT => (
            encode_cmdtm(0x17, RESP_48, false, false, false, false),
            0,
            0,
        ),
        SdCardCommands::WRITE_SINGLE => (
            encode_cmdtm(0x18, RESP_48, true, false, false, false),
            0,
            0,
        ),
        SdCardCommands::WRITE_MULTI => (
            encode_cmdtm(0x19, RESP_48, true, false, true, true),
            0,
            0,
        ),
        SdCardCommands::PROGRAM_CSD => (
            encode_cmdtm(0x1b, RESP_48, false, false, false, false),
            0,
            0,
        ),
        SdCardCommands::SET_WRITE_PR => (
            encode_cmdtm(0x1c, RESP_48_BUSY, false, false, false, false),
            0,
            0,
        ),
        SdCardCommands::CLR_WRITE_PR => (
            encode_cmdtm(0x1d, RESP_48_BUSY, false, false, false, false),
            0,
            0,
        ),
        SdCardCommands::SND_WRITE_PR => (
            encode_cmdtm(0x1e, RESP_48, false, false, false, false),
            0,
            0,
        ),
        SdCardCommands::ERASE_WR_ST => (
            encode_cmdtm(0x20, RESP_48, false, false, false, false),
            0,
            0,
        ),
        SdCardCommands::ERASE_WR_END => (
            encode_cmdtm(0x21, RESP_48, false, false, false, false),
            0,
            0,
        ),
        SdCardCommands::ERASE => (encode_cmdtm(0x26, RESP_48_BUSY, false, false, false, false), 0, 0),
        SdCardCommands::LOCK_UNLOCK => (
            encode_cmdtm(0x2a, RESP_48, false, false, false, false),
            0,
            0,
        ),
        SdCardCommands::APP_CMD => (
            encode_cmdtm(0x37, RESP_NONE, false, false, false, false),
            0,
            100,
        ),
        SdCardCommands::APP_CMD_RCA => (
            encode_cmdtm(0x37, RESP_48, false, false, false, false),
            1,
            0,
        ),
        SdCardCommands::GEN_CMD => (encode_cmdtm(0x38, RESP_48, false, false, false, false), 0, 0),
        SdCardCommands::APP_CMD_START => (0, 0, 0),
        SdCardCommands::SET_BUS_WIDTH => (
            encode_cmdtm(0x06, RESP_48, false, false, false, false),
            0,
            0,
        ),
        SdCardCommands::EMMC_STATUS => (
            encode_cmdtm(0x0d, RESP_48, false, false, false, false),
            1,
            0,
        ),
        SdCardCommands::SEND_NUM_WRBL => (
            encode_cmdtm(0x16, RESP_48, false, false, false, false),
            0,
            0,
        ),
        SdCardCommands::SEND_NUM_ERS => (
            encode_cmdtm(0x17, RESP_48, false, false, false, false),
            0,
            0,
        ),
        SdCardCommands::APP_SEND_OP_COND => (
            encode_cmdtm(0x29, RESP_48, false, false, false, false),
            0,
            1000,
        ),
        SdCardCommands::SET_CLR_DET => (
            encode_cmdtm(0x2a, RESP_48, false, false, false, false),
            0,
            0,
        ),
        SdCardCommands::SEND_SCR => (encode_cmdtm(0x33, RESP_48, true, true, false, false), 0, 0),
    }
}

/// The name of each command. The marker `APP_CMD_START` has none.
pub open spec fn cmd_name_of(c: SdCardCommands) -> Seq<char> {
    match c {
        SdCardCommands::GO_IDLE_STATE => "GO_IDLE_STATE"@,
        SdCardCommands::ALL_SEND_CID => "ALL_SEND_CID"@,
        SdCardCommands::SEND_REL_ADDR => "SEND_REL_ADDR"@,
        SdCardCommands::SET_DSR => "SET_DSR"@,
        SdCardCommands::SWITCH_FUNC => "SWITCH_FUNC"@,
        SdCardCommands::CARD_SELECT => "CARD_SELECT"@,
        SdCardCommands::SEND_IF_COND => "SEND_IF_COND"@,
        SdCardCommands::SEND_CSD => "SEND_CSD"@,
        SdCardCommands::SEND_CID => "SEND_CID"@,
        SdCardCommands::VOLTAGE_SWITCH => "VOLT_SWITCH"@,
        SdCardCommands::STOP_TRANS => "STOP_TRANS"@,
        SdCardCommands::SEND_STATUS => "SEND_STATUS"@,
        SdCardCommands::GO_INACTIVE => "GO_INACTIVE"@,
        SdCardCommands::SET_BLOCKLEN => "SET_BLOCKLEN"@,
        SdCardCommands::READ_SINGLE => "READ_SINGLE"@,
        SdCardCommands::READ_MULTI => "READ_MULTI"@,
        SdCardCommands::SEND_TUNING => "SEND_TUNING"@,
        SdCardCommands::SPEED_CLASS => "SPEED_CLASS"@,
        SdCardCommands::SET_BLOCKCNT => "SET_BLOCKCNT"@,
        SdCardCommands::WRITE_SINGLE => "WRITE_SINGLE"@,
        SdCardCommands::WRITE_MULTI => "WRITE_MULTI"@,
        SdCardCommands::PROGRAM_CSD => "PROGRAM_CSD"@,
        SdCardCommands::SET_WRITE_PR => "SET_WRITE_PR"@,
        SdCardCommands::CLR_WRITE_PR => "CLR_WRITE_PR"@,
        SdCardCommands::SND_WRITE_PR => "SND_WRITE_PR"@,
        SdCardCommands::ERASE_WR_ST => "ERASE_WR_ST"@,
        SdCardCommands::ERASE_WR_END => "ERASE_WR_END"@,
        SdCardCommands::ERASE => "ERASE"@,
        SdCardCommands::LOCK_UNLOCK => "LOCK_UNLOCK"@,
        SdCardCommands::APP_CMD => "APP_CMD"@,
        SdCardCommands::APP_CMD_RCA => "APP_CMD_RCA"@,
        SdCardCommands::GEN_CMD => "GEN_CMD"@,
        SdCardCommands::APP_CMD_START => Seq::empty(),
        SdCardCommands::SET_BUS_WIDTH => "SET_BUS_WIDTH"@,
        SdCardCommands::EMMC_STATUS => "EMMC_STATUS"@,
        SdCardCommands::SEND_NUM_WRBL => "SEND_NUM_WRBL"@,
        SdCardCommands::SEND_NUM_ERS => "SEND_NUM_ERS"@,
        SdCardCommands::APP_SEND_OP_COND => "APP_SEND_OP_COND"@,
        SdCardCommands::SET_CLR_DET => "SET_CLR_DET"@,
        SdCardCommands::SEND_SCR => "SEND_SCR"@,
    }
}

/// True for the commands that the protocol engine must prefix with
/// `APP_CMD`: those listed after the `APP_CMD_START` marker.
pub open spec fn is_app_cmd(c: SdCardCommands) -> bool {
    match c {
        SdCardCommands::SET_BUS_WIDTH => true,
        SdCardCommands::EMMC_STATUS => true,
        SdCardCommands::SEND_NUM_WRBL => true,
        SdCardCommands::SEND_NUM_ERS => true,
        SdCardCommands::APP_SEND_OP_COND => true,
        SdCardCommands::SET_CLR_DET => true,
        SdCardCommands::SEND_SCR => true,
        _ => false,
    }
}

impl SdCardCommands {
    /// True when the protocol engine must prefix this command with
    /// `APP_CMD`.
    pub fn needs_app_cmd(&self) -> (r: bool)
        ensures
            r == is_app_cmd(*self),
    {
        match self {
            SdCardCommands::SET_BUS_WIDTH => true,
            SdCardCommands::EMMC_STATUS => true,
            SdCardCommands::SEND_NUM_WRBL => true,
            SdCardCommands::SEND_NUM_ERS => true,
            SdCardCommands::APP_SEND_OP_COND => true,
            SdCardCommands::SET_CLR_DET => true,
            SdCardCommands::SEND_SCR => true,
            _ => false,
        }
    }

    /// Looks the command's wire-level descriptor up.
    ///
    /// The marker `APP_CMD_START` is no command: asking for its
    /// descriptor is a programming error, ruled out by the caller.
    pub fn get_cmd(&self) -> (r: EMMCCommand)
        requires
            !(*self is APP_CMD_START),
        ensures
            r.cmd_code == cmd_descriptor(*self).0,
            r.use_rca == cmd_descriptor(*self).1,
            r.delay == cmd_descriptor(*self).2,
            r.cmd_name@ == cmd_name_of(*self),
    {
        match self {
            Self::GO_IDLE_STATE => EMMCCommand {
                cmd_name: "GO_IDLE_STATE",
                cmd_code: cmdtm(0x00, RESP_NONE, false, false, false, false),
                use_rca: 0,
                delay: 0,
            },
            Self::ALL_SEND_CID => EMMCCommand {
                cmd_name: "ALL_SEND_CID",
                cmd_code: cmdtm(0x02, RESP_136, false, false, false, false),
                use_rca: 0,
                delay: 0,
            },
            Self::SEND_REL_ADDR => EMMCCommand {
                cmd_name: "SEND_REL_ADDR",
                cmd_code: cmdtm(0x03, RESP_48, false, false, false, false),
                use_rca: 0,
                delay: 0,
            },
            Self::SET_DSR => EMMCCommand {
                cmd_name: "SET_DSR",
                cmd_code: cmdtm(0x04, RESP_NONE, false, false, false, false),
                use_rca: 0,
                delay: 0,
            },
            Self::SWITCH_FUNC => EMMCCommand {
                cmd_name: "SWITCH_FUNC",
                cmd_code: cmdtm(0x06, RESP_48, false, false, false, false),
                use_rca: 0,
                delay: 0,
            },
            Self::CARD_SELECT => EMMCCommand {
                cmd_name: "CARD_SELECT",
                cmd_code: cmdtm(0x07, RESP_48_BUSY, false, false, false, false),
                use_rca: 1,
                delay: 0,
            },
            Self::SEND_IF_COND => EMMCCommand {
                cmd_name: "SEND_IF_COND",
                cmd_code: cmdtm(0x08, RESP_48, false, false, false, false),
                use_rca: 1,
                delay: 100,
            },
            Self::SEND_CSD => EMMCCommand {
                cmd_name: "SEND_CSD",
                cmd_code: cmdtm(0x09, RESP_136, false, false, false, false),
                use_rca: 1,
                delay: 0,
            },
            Self::SEND_CID => EMMCCommand {
                cmd_name: "SEND_CID",
                cmd_code: cmdtm(0x0a, RESP_136, false, false, false, false),
                use_rca: 1,
                delay: 0,
            },
            Self::VOLTAGE_SWITCH => EMMCCommand {
                cmd_name: "VOLT_SWITCH",
                cmd_code: cmdtm(0x0b, RESP_48, false, false, false, false),
                use_rca: 0,
                delay: 0,
            },
            Self::STOP_TRANS => EMMCCommand {
                cmd_name: "STOP_TRANS",
                cmd_code: cmdtm(0x0c, RESP_48_BUSY, false, false, false, false),
                use_rca: 0,
                delay: 0,
            },
            Self::SEND_STATUS => EMMCCommand {
                cmd_name: "SEND_STATUS",
                cmd_code: cmdtm(0x0d, RESP_48, false, false, false, false),
                use_rca: 1,
                delay: 0,
            },
            Self::GO_INACTIVE => EMMCCommand {
                cmd_name: "GO_INACTIVE",
                cmd_code: cmdtm(0x0f, RESP_NONE, false, false, false, false),
                use_rca: 1,
                delay: 0,
            },
            Self::SET_BLOCKLEN => EMMCCommand {
                cmd_name: "SET_BLOCKLEN",
                cmd_code: cmdtm(0x10, RESP_NONE, false, false, false, false),
                use_rca: 0,
                delay: 0,
            },
            Self::READ_SINGLE => EMMCCommand {
                cmd_name: "READ_SINGLE",
                cmd_code: cmdtm(0x11, RESP_48, true, true, false, false),
                use_rca: 0,
                delay: 0,
            },
            Self::READ_MULTI => EMMCCommand {
                cmd_name: "READ_MULTI",
                cmd_code: cmdtm(0x12, RESP_48, true, true, true, true),
                use_rca: 0,
                delay: 0,
            },
            Self::SEND_TUNING => EMMCCommand {
                cmd_name: "SEND_TUNING",
                cmd_code: cmdtm(0x13, RESP_48, false, false, false, false),
                use_rca: 0,
                delay: 0,
            },
            Self::SPEED_CLASS => EMMCCommand {
                cmd_name: "SPEED_CLASS",
                cmd_code: cmdtm(0x14, RESP_48_BUSY, false, false, false, false),
                use_rca: 0,
                delay: 0,
            },
            Self::SET_BLOCKCNT => EMMCCommand {
                cmd_name: "SET_BLOCKCNT",
                cmd_code: cmdtm(0x17, RESP_48, false, false, false, false),
                use_rca: 0,
                delay: 0,
            },
            Self::WRITE_SINGLE => EMMCCommand {
                cmd_name: "WRITE_SINGLE",
                cmd_code: cmdtm(0x18, RESP_48, true, false, false, false),
                use_rca: 0,
                delay: 0,
            },
            Self::WRITE_MULTI => EMMCCommand {
                cmd_name: "WRITE_MULTI",
                cmd_code: cmdtm(0x19, RESP_48, true, false, true, true),
                use_rca: 0,
                delay: 0,
            },
            Self::PROGRAM_CSD => EMMCCommand {
                cmd_name: "PROGRAM_CSD",
                cmd_code: cmdtm(0x1b, RESP_48, false, false, false, false),
                use_rca: 0,
                delay: 0,
            },
            Self::SET_WRITE_PR => EMMCCommand {
                cmd_name: "SET_WRITE_PR",
                cmd_code: cmdtm(0x1c, RESP_48_BUSY, false, false, false, false),
                use_rca: 0,
                delay: 0,
            },
            Self::CLR_WRITE_PR => EMMCCommand {
                cmd_name: "CLR_WRITE_PR",
                cmd_code: cmdtm(0x1d, RESP_48_BUSY, false, false, false, false),
                use_rca: 0,
                delay: 0,
            },
            Self::SND_WRITE_PR => EMMCCommand {
                cmd_name: "SND_WRITE_PR",
                cmd_code: cmdtm(0x1e, RESP_48, false, false, false, false),
                use_rca: 0,
                delay: 0,
            },
            Self::ERASE_WR_ST => EMMCCommand {
                cmd_name: "ERASE_WR_ST",
                cmd_code: cmdtm(0x20, RESP_48, false, false, false, false),
                use_rca: 0,
                delay: 0,
            },
            Self::ERASE_WR_END => EMMCCommand {
                cmd_name: "ERASE_WR_END",
                cmd_code: cmdtm(0x21, RESP_48, false, false, false, false),
                use_rca: 0,
                delay: 0,
            },
            Self::ERASE => EMMCCommand {
                cmd_name: "ERASE",
                cmd_code: cmdtm(0x26, RESP_48_BUSY, false, false, false, false),
                use_rca: 0,
                delay: 0,
            },
            Self::LOCK_UNLOCK => EMMCCommand {
                cmd_name: "LOCK_UNLOCK",
                cmd_code: cmdtm(0x2a, RESP_48, false, false, false, false),
                use_rca: 0,
                delay: 0,
            },
            Self::APP_CMD => EMMCCommand {
                cmd_name: "APP_CMD",
                cmd_code: cmdtm(0x37, RESP_NONE, false, false, false, false),
                use_rca: 0,
                delay: 100,
            },
            Self::APP_CMD_RCA => EMMCCommand {
                cmd_name: "APP_CMD_RCA",
                cmd_code: cmdtm(0x37, RESP_48, false, false, false, false),
                use_rca: 1,
                delay: 0,
            },
            Self::GEN_CMD => EMMCCommand {
                cmd_name: "GEN_CMD",
                cmd_code: cmdtm(0x38, RESP_48, false, false, false, false),
                use_rca: 0,
                delay: 0,
            },
            Self::APP_CMD_START => EMMCCommand {
                cmd_name: " ",
                cmd_code: 0,
                use_rca: 0,
                delay: 0,
            },
            Self::SET_BUS_WIDTH => EMMCCommand {
                cmd_name: "SET_BUS_WIDTH",
                cmd_code: cmdtm(0x06, RESP_48, false, false, false, false),
                use_rca: 0,
                delay: 0,
            },
            Self::EMMC_STATUS => EMMCCommand {
                cmd_name: "EMMC_STATUS",
                cmd_code: cmdtm(0x0d, RESP_48, false, false, false, false),
                use_rca: 1,
                delay: 0,
            },
            Self::SEND_NUM_WRBL => EMMCCommand {
                cmd_name: "SEND_NUM_WRBL",
                cmd_code: cmdtm(0x16, RESP_48, false, false, false, false),
                use_rca: 0,
                delay: 0,
            },
            Self::SEND_NUM_ERS => EMMCCommand {
                cmd_name: "SEND_NUM_ERS",
                cmd_code: cmdtm(0x17, RESP_48, false, false, false, false),
                use_rca: 0,
                delay: 0,
            },
            Self::APP_SEND_OP_COND => EMMCCommand {
                cmd_name: "APP_SEND_OP_COND",
                cmd_code: cmdtm(0x29, RESP_48, false, false, false, false),
                use_rca: 0,
                delay: 1000,
            },
            Self::SET_CLR_DET => EMMCCommand {
                cmd_name: "SET_CLR_DET",
                cmd_code: cmdtm(0x2a, RESP_48, false, false, false, false),
                use_rca: 0,
                delay: 0,
            },
            Self::SEND_SCR => EMMCCommand {
                cmd_name: "SEND_SCR",
                cmd_code: cmdtm(0x33, RESP_48, true, true, false, false),
                use_rca: 0,
                delay: 0,
            },
        }
    }
}

/// The host-controller device, whose protocol engine is an external
/// collaborator of this subsystem.
pub struct EMMC {}

} // verus!
