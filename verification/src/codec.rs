//! The protocol codec: the pure mapping between commands and wire bytes.
//!
//! Every literal byte below is fixed by the device and must match exactly.
//! The spec functions are the single authoritative table of frames, response
//! lengths and expected replies; the executable functions are proved against
//! them.

use vstd::prelude::*;

use crate::errors::AmpError;
use crate::status::{spec_effect_code, spec_input_code, Effect, Input, Status};

verus! {

/// A command of the device protocol.
///
/// Each command is sent as one fixed frame and answered by one fixed-size
/// response; see [`spec_frame`], [`spec_response_len`] and
/// [`spec_expected_reply`] for the three columns of the table.
#[derive(Clone, Copy, Debug, PartialEq, Eq, Structural)]
pub enum Command {
    /// Raise the main volume one step.
    VolumeUp,
    /// Lower the main volume one step.
    VolumeDown,
    /// Leave standby.
    TurnOn,
    /// Enter standby.
    TurnOff,
    /// Select an input; the device acknowledges by echoing the frame.
    SelectInput(Input),
    /// Select an effect; the device acknowledges by echoing the frame.
    SelectEffect(Effect),
    /// Restore the device configuration with a two-record checksummed
    /// payload.
    ConfigurationReset,
    /// Defer the device's idle auto-standby; echoed back as acknowledgement.
    ResetIdleTimeout,
    /// Ask for the 24-byte status response.
    StatusQuery,
}

/// The frame sent for a command.
pub open spec fn spec_frame(c: Command) -> Seq<u8> {
    match c {
        Command::VolumeUp => seq![0x08u8],
        Command::VolumeDown => seq![0x09u8],
        Command::TurnOn => seq![0x11u8, 0x11, 0x14, 0x39, 0x38, 0x30, 0x39],
        Command::TurnOff => seq![0x30u8, 0x37, 0x36],
        Command::SelectInput(i) => seq![
            0x09u8,
            spec_input_code(i),
            spec_effect_code(Effect::Disabled),
            0x08,
        ],
        Command::SelectEffect(e) => seq![spec_effect_code(e)],
        Command::ConfigurationReset => spec_config_reset_frame(),
        Command::ResetIdleTimeout => seq![0x30u8],
        Command::StatusQuery => seq![0x34u8],
    }
}

/// The configuration-reset payload: two records, each a type marker, a
/// length, the record data and a checksum byte, followed by a trailing
/// command byte.  The checksum bytes are precomputed.
pub open spec fn spec_config_reset_frame() -> Seq<u8> {
    seq![
        0xAAu8, 0x0E, // record type
        0x03, // length of the record data
        0x20, 0x00, 0x00, 0xCF, // record data, then checksum
        0xAA, 0x0A, // record type
        0x14, // length of the record data
        0x0A, 0x15, 0x15, 0x15, 0x00, 0x00, 0x00, 0x00, 0x00, 0x00, 0x03, 0x00,
        0x00, 0x00, 0x06, 0x01, 0x03, 0x00, 0x00, 0x00, 0x8C, // record data, then checksum
        0x36,
    ]
}

/// How many response bytes a command is answered with.
pub open spec fn spec_response_len(c: Command) -> nat {
    match c {
        Command::VolumeUp => 1,
        Command::VolumeDown => 1,
        Command::TurnOn => 7,
        Command::TurnOff => 3,
        Command::SelectInput(_) => 4,
        Command::SelectEffect(_) => 1,
        Command::ConfigurationReset => 6,
        Command::ResetIdleTimeout => 1,
        Command::StatusQuery => 24,
    }
}

/// The exact response a command demands, if it demands one.
///
/// Echo-acknowledged commands must come back verbatim; the configuration
/// reset is answered with one fixed acknowledgement frame.  `None` means the
/// response carries no expectation beyond its length (the status response is
/// validated by [`spec_status_header_ok`] instead).
pub open spec fn spec_expected_reply(c: Command) -> Option<Seq<u8>> {
    match c {
        Command::SelectInput(_) => Some(spec_frame(c)),
        Command::SelectEffect(_) => Some(spec_frame(c)),
        Command::ResetIdleTimeout => Some(spec_frame(c)),
        Command::ConfigurationReset => Some(seq![0xAAu8, 0xFF, 0x01, 0x8A, 0x76, 0x36]),
        _ => None,
    }
}

/// Encode a command as the frame to send.
pub fn encode(c: &Command) -> (f: Vec<u8>)
    ensures
        f@ == spec_frame(*c),
{
    let f: Vec<u8> = match c {
        Command::VolumeUp => vec![0x08],
        Command::VolumeDown => vec![0x09],
        Command::TurnOn => vec![0x11, 0x11, 0x14, 0x39, 0x38, 0x30, 0x39],
        Command::TurnOff => vec![0x30, 0x37, 0x36],
        Command::SelectInput(i) => vec![0x09, i.code(), 0x35, 0x08],
        Command::SelectEffect(e) => vec![e.code()],
        Command::ConfigurationReset => vec![
            0xAA, 0x0E, 0x03, 0x20, 0x00, 0x00, 0xCF, 0xAA, 0x0A, 0x14, 0x0A, 0x15,
            0x15, 0x15, 0x00, 0x00, 0x00, 0x00, 0x00, 0x00, 0x03, 0x00, 0x00, 0x00,
            0x06, 0x01, 0x03, 0x00, 0x00, 0x00, 0x8C, 0x36,
        ],
        Command::ResetIdleTimeout => vec![0x30],
        Command::StatusQuery => vec![0x34],
    };
    proof {
        assert(f@ =~= spec_frame(*c));
    }
    f
}

/// How many response bytes to read for a command.
pub fn response_len(c: &Command) -> (n: usize)
    ensures
        n == spec_response_len(*c),
{
    match c {
        Command::VolumeUp => 1,
        Command::VolumeDown => 1,
        Command::TurnOn => 7,
        Command::TurnOff => 3,
        Command::SelectInput(_) => 4,
        Command::SelectEffect(_) => 1,
        Command::ConfigurationReset => 6,
        Command::ResetIdleTimeout => 1,
        Command::StatusQuery => 24,
    }
}

/// The exact response a command demands, if it demands one.
pub fn expected_reply(c: &Command) -> (r: Option<Vec<u8>>)
    ensures
        r is Some <==> spec_expected_reply(*c) is Some,
        r matches Some(v) ==> Some(v@) == spec_expected_reply(*c),
{
    match c {
        Command::SelectInput(_) => Some(encode(c)),
        Command::SelectEffect(_) => Some(encode(c)),
        Command::ResetIdleTimeout => Some(encode(c)),
        Command::ConfigurationReset => {
            let v: Vec<u8> = vec![0xAA, 0xFF, 0x01, 0x8A, 0x76, 0x36];
            proof {
                assert(v@ =~= seq![0xAAu8, 0xFF, 0x01, 0x8A, 0x76, 0x36]);
            }
            Some(v)
        },
        _ => None,
    }
}

/// The protocol table is internally consistent: a command that demands an
/// exact response demands one of exactly the length that is read for it,
/// and every echo-acknowledged command demands its own frame back.
pub proof fn lemma_expected_reply_wf(c: Command)
    ensures
        spec_expected_reply(c) matches Some(rep) ==> rep.len() == spec_response_len(c),
        (c matches Command::SelectInput(_) || c matches Command::SelectEffect(_) || c
            == Command::ResetIdleTimeout) ==> spec_expected_reply(c) == Some(spec_frame(c)),
{
}

/// Whether a 24-byte status response starts with the magic header.
pub open spec fn spec_status_header_ok(buf: Seq<u8>) -> bool {
    &&& buf.len() == 24
    &&& buf[0] == 0xAA
    &&& buf[1] == 0x0A
    &&& buf[2] == 0x14
}

/// The status a valid 24-byte response decodes to.
///
/// The offsets are fixed by the device.  The offset-to-logical-input mapping
/// of the effect fields (offsets 11, 12, 13 carry inputs 2, 6, 1) is a
/// device quirk observed on hardware; it must be preserved verbatim, not
/// extrapolated to the other inputs.
pub open spec fn spec_decode_status(buf: Seq<u8>) -> Status {
    Status {
        main_volume: buf[3],
        // the wire value is 0-based; 255 cannot arise from a device in range
        input: if buf[7] == 255 {
            0
        } else {
            (buf[7] + 1) as u8
        },
        standby: buf[20] == 0x01,
        input_1_effect: buf[13],
        input_2_effect: buf[11],
        input_6_effect: buf[12],
    }
}

/// Validate and decode a status response.
///
/// A status is produced exactly when the response is 24 bytes long and its
/// first three bytes equal the magic header; otherwise no status is produced
/// and the error names the header mismatch.
pub fn decode_status(buf: &Vec<u8>) -> (r: Result<Status, AmpError>)
    ensures
        r is Ok <==> spec_status_header_ok(buf@),
        r matches Ok(s) ==> s == spec_decode_status(buf@),
        r is Err ==> r == Err::<Status, AmpError>(AmpError::ProtocolUnexpectedHeader),
{
    if buf.len() != 24 {
        return Err(AmpError::ProtocolUnexpectedHeader);
    }
    if buf[0] != 0xAA || buf[1] != 0x0A || buf[2] != 0x14 {
        return Err(AmpError::ProtocolUnexpectedHeader);
    }
    let raw_input = buf[7];
    Ok(Status {
        main_volume: buf[3],
        input: if raw_input == 255 {
            0
        } else {
            raw_input + 1
        },
        standby: buf[20] == 0x01,
        input_1_effect: buf[13],
        input_2_effect: buf[11],
        input_6_effect: buf[12],
    })
}

} // verus!
