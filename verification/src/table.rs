//! The status-code table and the lookup of a code's description.

use crate::codes;
use crate::codes::{to_unsigned, unsigned_of};
use vstd::prelude::*;

verus! {

/// Number of rows of the status-code table.
pub const STATUS_TABLE_LEN: usize = 68;

/// The status-code table: each code that the stack documents, with its
/// description. Read-only, and the same for every caller.
pub const MAPPINGS: [(u32, &'static str); 68] = [
    (codes::BLE_HS_EALREADY, "Operation already in progress or completed."),
    (codes::BLE_HS_EINVAL, "One or more arguments are invalid."),
    (codes::BLE_HS_EMSGSIZE, "The provided buffer is too small."),
    (codes::BLE_HS_ENOENT, "No entry matching the specified criteria."),
    (codes::BLE_HS_ENOMEM, "Operation failed due to resource exhaustion."),
    (codes::BLE_HS_ENOTCONN, "No open connection with the specified handle."),
    (codes::BLE_HS_ENOTSUP, "Operation disabled at compile time."),
    (codes::BLE_HS_EAPP, "Application callback behaved unexpectedly."),
    (codes::BLE_HS_EBADDATA, "Command from peer is invalid."),
    (codes::BLE_HS_EOS, "Mynewt OS error."),
    (codes::BLE_HS_ECONTROLLER, "Event from controller is invalid."),
    (codes::BLE_HS_ETIMEOUT, "Operation timed out."),
    (codes::BLE_HS_EDONE, "Operation completed successfully."),
    (codes::BLE_HS_EBUSY, "Operation cannot be performed until procedure completes."),
    (codes::BLE_HS_EREJECT, "Peer rejected a connection parameter update request."),
    (codes::BLE_HS_EUNKNOWN, "Unexpected failure; catch all."),
    (codes::BLE_HS_EROLE, "Operation requires different role (e.g., central vs. peripheral)."),
    (codes::BLE_HS_ETIMEOUT_HCI, "HCI request timed out; controller unresponsive."),
    (
        codes::BLE_HS_ENOMEM_EVT,
        "Controller failed to send event due to memory exhaustion (combined host-controller only).",
    ),
    (codes::BLE_HS_ENOADDR, "Operation requires an identity address but none configured."),
    (codes::BLE_HS_ENOTSYNCED, "Attempt to use the host before it is synced with controller."),
    (codes::BLE_HS_EAUTHEN, "Insufficient authentication."),
    (codes::BLE_HS_EAUTHOR, "Insufficient authorization."),
    (codes::BLE_HS_EENCRYPT, "Insufficient encryption level."),
    (codes::BLE_HS_EENCRYPT_KEY_SZ, "Insufficient key size"),
    (codes::BLE_HS_ESTORE_CAP, "Storage at capacity."),
    (codes::BLE_HS_ESTORE_FAIL, "Storage IO error."),
    (
        codes::BLE_HS_ERR_ATT_BASE + codes::BLE_ATT_ERR_INVALID_HANDLE,
        "The attribute handle given was not valid on this server.",
    ),
    (
        codes::BLE_HS_ERR_ATT_BASE + codes::BLE_ATT_ERR_READ_NOT_PERMITTED,
        "The attribute cannot be read.",
    ),
    (
        codes::BLE_HS_ERR_ATT_BASE + codes::BLE_ATT_ERR_WRITE_NOT_PERMITTED,
        "The attribute cannot be written.",
    ),
    (codes::BLE_HS_ERR_ATT_BASE + codes::BLE_ATT_ERR_INVALID_PDU, "The attribute PDU was invalid."),
    (
        codes::BLE_HS_ERR_ATT_BASE + codes::BLE_ATT_ERR_INSUFFICIENT_AUTHEN,
        "The attribute requires authentication before it can be read or written.",
    ),
    (
        codes::BLE_HS_ERR_ATT_BASE + codes::BLE_ATT_ERR_REQ_NOT_SUPPORTED,
        "Attribute server does not support the request received from the client.",
    ),
    (
        codes::BLE_HS_ERR_ATT_BASE + codes::BLE_ATT_ERR_INVALID_OFFSET,
        "Offset specified was past the end of the attribute.",
    ),
    (
        codes::BLE_HS_ERR_ATT_BASE + codes::BLE_ATT_ERR_INSUFFICIENT_AUTHOR,
        "The attribute requires authorization before it can be read or written.",
    ),
    (
        codes::BLE_HS_ERR_ATT_BASE + codes::BLE_ATT_ERR_PREPARE_QUEUE_FULL,
        "Too many prepare writes have been queued.",
    ),
    (
        codes::BLE_HS_ERR_ATT_BASE + codes::BLE_ATT_ERR_ATTR_NOT_FOUND,
        "No attribute found within the given attribute handle range.",
    ),
    (
        codes::BLE_HS_ERR_ATT_BASE + codes::BLE_ATT_ERR_ATTR_NOT_LONG,
        "The attribute cannot be read or written using the Read Blob Request.",
    ),
    (
        codes::BLE_HS_ERR_ATT_BASE + codes::BLE_ATT_ERR_INSUFFICIENT_KEY_SZ,
        "The Encryption Key Size used for encrypting this link is insufficient.",
    ),
    (
        codes::BLE_HS_ERR_ATT_BASE + codes::BLE_ATT_ERR_INVALID_ATTR_VALUE_LEN,
        "The attribute value length is invalid for the operation.",
    ),
    (
        codes::BLE_HS_ERR_ATT_BASE + codes::BLE_ATT_ERR_UNLIKELY,
        "The attribute request has encountered an error that was unlikely, could not be completed as requested.",
    ),
    (
        codes::BLE_HS_ERR_ATT_BASE + codes::BLE_ATT_ERR_INSUFFICIENT_ENC,
        "The attribute requires encryption before it can be read or written.",
    ),
    (
        codes::BLE_HS_ERR_ATT_BASE + codes::BLE_ATT_ERR_UNSUPPORTED_GROUP,
        "The attribute type is not a supported grouping attribute as defined by a higher layer specification.",
    ),
    (
        codes::BLE_HS_ERR_ATT_BASE + codes::BLE_ATT_ERR_INSUFFICIENT_RES,
        "Insufficient Resources to complete the request.",
    ),
    (codes::BLE_HS_ERR_HCI_BASE + codes::BLE_ERR_UNKNOWN_HCI_CMD, "Unknown HCI Command"),
    (codes::BLE_HS_ERR_HCI_BASE + codes::BLE_ERR_UNK_CONN_ID, "Unknown Connection Identifier"),
    (codes::BLE_HS_ERR_HCI_BASE + codes::BLE_ERR_AUTH_FAIL, "Authentication Failure"),
    (
        codes::BLE_HS_ERR_HCI_BASE + codes::BLE_ERR_INV_HCI_CMD_PARMS,
        "Invalid HCI Command Parameters",
    ),
    (
        codes::BLE_HS_ERR_HCI_BASE + codes::BLE_ERR_REM_USER_CONN_TERM,
        "Remote User Terminated Connection",
    ),
    (
        codes::BLE_HS_ERR_HCI_BASE + codes::BLE_ERR_CONN_TERM_LOCAL,
        "Connection Terminated By Local Host",
    ),
    (
        codes::BLE_HS_ERR_HCI_BASE + codes::BLE_ERR_CONN_ESTABLISHMENT,
        "Connection Failed to be Established.",
    ),
    (
        codes::BLE_HS_ERR_L2C_BASE + codes::BLE_L2CAP_SIG_ERR_CMD_NOT_UNDERSTOOD,
        "Invalid or unsupported incoming L2CAP sig command.",
    ),
    (
        codes::BLE_HS_ERR_L2C_BASE + codes::BLE_L2CAP_SIG_ERR_MTU_EXCEEDED,
        "Incoming packet too large.",
    ),
    (
        codes::BLE_HS_ERR_L2C_BASE + codes::BLE_L2CAP_SIG_ERR_INVALID_CID,
        "No channel with specified ID.",
    ),
    (
        codes::BLE_HS_ERR_SM_US_BASE + codes::BLE_SM_ERR_PASSKEY,
        "The user input of passkey failed, for example, the user cancelled the operation.",
    ),
    (codes::BLE_HS_ERR_SM_US_BASE + codes::BLE_SM_ERR_OOB, "The OOB data is not available."),
    (
        codes::BLE_HS_ERR_SM_US_BASE + codes::BLE_SM_ERR_AUTHREQ,
        "The pairing procedure cannot be performed as authentication requirements cannot be met due to IO capabilities of one or both devices.",
    ),
    (
        codes::BLE_HS_ERR_SM_US_BASE + codes::BLE_SM_ERR_CONFIRM_MISMATCH,
        "The confirm value does not match the calculated compare value.",
    ),
    (
        codes::BLE_HS_ERR_SM_US_BASE + codes::BLE_SM_ERR_PAIR_NOT_SUPP,
        "Pairing is not supported by the device.",
    ),
    (
        codes::BLE_HS_ERR_SM_US_BASE + codes::BLE_SM_ERR_ENC_KEY_SZ,
        "The resultant encryption key size is insufficient for the security requirements of this device.",
    ),
    (
        codes::BLE_HS_ERR_SM_US_BASE + codes::BLE_SM_ERR_CMD_NOT_SUPP,
        "The SMP command received is not supported on this device.",
    ),
    (
        codes::BLE_HS_ERR_SM_US_BASE + codes::BLE_SM_ERR_UNSPECIFIED,
        "Pairing failed due to an unspecified reason.",
    ),
    (
        codes::BLE_HS_ERR_SM_US_BASE + codes::BLE_SM_ERR_REPEATED,
        "Pairing or authentication procedure is disallowed because too little time has elapsed since last pairing request or security request.",
    ),
    (
        codes::BLE_HS_ERR_SM_US_BASE + codes::BLE_SM_ERR_INVAL,
        "The Invalid Parameters error code indicates that the command length is invalid or that a parameter is outside of the specified range.",
    ),
    (
        codes::BLE_HS_ERR_SM_US_BASE + codes::BLE_SM_ERR_DHKEY,
        "Indicates to the remote device that the DHKey Check value received doesn\u{2019}t match the one calculated by the local device.",
    ),
    (
        codes::BLE_HS_ERR_SM_US_BASE + codes::BLE_SM_ERR_NUMCMP,
        "Indicates that the confirm values in the numeric comparison protocol do not match.",
    ),
    (
        codes::BLE_HS_ERR_SM_US_BASE + codes::BLE_SM_ERR_ALREADY,
        "Indicates that the pairing over the LE transport failed due to a Pairing Request sent over the BR/EDR transport in process.",
    ),
    (
        codes::BLE_HS_ERR_SM_US_BASE + codes::BLE_SM_ERR_CROSS_TRANS,
        "Indicates that the BR/EDR Link Key generated on the BR/EDR transport cannot be used to derive and distribute keys for the LE transport.",
    ),
];

/// The table as a sequence of codes and description texts.
pub open spec fn status_table() -> Seq<(u32, Seq<char>)> {
    Seq::new(MAPPINGS@.len(), |i: int| (MAPPINGS@[i].0, MAPPINGS@[i].1@))
}

/// Row `i` of `table` holds `code`, and no row before it does.
pub open spec fn is_first_match(table: Seq<(u32, Seq<char>)>, code: u32, i: int) -> bool {
    &&& 0 <= i < table.len()
    &&& table[i].0 == code
    &&& forall|j: int| 0 <= j < i ==> (#[trigger] table[j]).0 != code
}

/// The text of the first row of `table` that holds `code`, if there is one.
pub open spec fn lookup(table: Seq<(u32, Seq<char>)>, code: u32) -> Option<Seq<char>> {
    if exists|i: int| is_first_match(table, code, i) {
        Some(table[choose|i: int| is_first_match(table, code, i)].1)
    } else {
        None
    }
}

/// The description of `code` in the status-code table.
pub open spec fn describe(code: u32) -> Option<Seq<char>> {
    lookup(status_table(), code)
}

/// The view of an optional text.
pub open spec fn text_view(text: Option<&'static str>) -> Option<Seq<char>> {
    match text {
        Some(t) => Some(t@),
        None => None,
    }
}

/// Looks `rc` up in the status-code table, by its unsigned representation.
/// An unknown code has no description; it is no failure.
pub fn return_code_to_string(rc: i32) -> (text: Option<&'static str>)
    ensures
        text_view(text) == describe(to_unsigned(rc)),
{
    let val: u32 = unsigned_of(rc);
    let ghost table = status_table();
    let mut i: usize = 0;
    while i < STATUS_TABLE_LEN
        invariant
            i <= STATUS_TABLE_LEN,
            table == status_table(),
            val == to_unsigned(rc),
            forall|j: int| 0 <= j < i ==> (#[trigger] table[j]).0 != val,
        decreases STATUS_TABLE_LEN - i,
    {
        let (code, text) = MAPPINGS[i];
        if val == code {
            proof {
                assert(is_first_match(table, val, i as int));
                let k = choose|k: int| is_first_match(table, val, k);
                assert(k == i) by {
                    if k < i {
                        assert(table[k].0 != val);
                    }
                }
            }
            return Some(text);
        }
        i += 1;
    }
    proof {
        assert forall|k: int| !is_first_match(table, val, k) by {
            if 0 <= k < table.len() {
                assert(table[k].0 != val);
            }
        }
    }
    None
}

/// No two rows of the status-code table hold the same code.
pub proof fn lemma_codes_distinct()
    ensures
        forall|i: int, j: int|
            0 <= i < j < status_table().len() ==> status_table()[i].0 != status_table()[j].0,
{
}

/// Each row of the status-code table is what its own code is described by,
/// wherever in the table the row stands.
pub proof fn lemma_row_described(i: int)
    requires
        0 <= i < status_table().len(),
    ensures
        describe(status_table()[i].0) == Some(status_table()[i].1),
{
    let table = status_table();
    let code = table[i].0;
    lemma_codes_distinct();
    assert(is_first_match(table, code, i));
    let k = choose|k: int| is_first_match(table, code, k);
    assert(k == i);
}

/// A code has a description if and only if a row of the status-code table
/// holds it.
pub proof fn lemma_described_iff_listed(code: u32)
    ensures
        describe(code) is Some <==> exists|i: int|
            0 <= i < status_table().len() && (#[trigger] status_table()[i]).0 == code,
        describe(code) is Some ==> exists|i: int|
            0 <= i < status_table().len() && #[trigger] status_table()[i] == (
                code,
                describe(code)->Some_0,
            ),
{
    let table = status_table();
    if exists|i: int| 0 <= i < table.len() && (#[trigger] table[i]).0 == code {
        let i = choose|i: int| 0 <= i < table.len() && (#[trigger] table[i]).0 == code;
        lemma_row_described(i);
    }
    if describe(code) is Some {
        let k = choose|k: int| is_first_match(table, code, k);
        assert(table[k] == (code, describe(code)->Some_0));
    }
}

} // verus!
