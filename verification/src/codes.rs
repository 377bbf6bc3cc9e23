//! Numeric status codes of the host stack, by subsystem.
//!
//! The stack splits its status space into disjoint ranges. Host codes stand
//! as they are; the codes of every other subsystem are local to it and are
//! added to that subsystem's base before they are reported. The values follow
//! the stack's headers and have to be held against them whenever the stack is
//! upgraded.

use vstd::prelude::*;

verus! {

// Subsystem bases.
pub const BLE_HS_ERR_ATT_BASE: u32 = 0x100;
pub const BLE_HS_ERR_HCI_BASE: u32 = 0x200;
pub const BLE_HS_ERR_L2C_BASE: u32 = 0x300;
pub const BLE_HS_ERR_SM_US_BASE: u32 = 0x400;

// Host codes.
pub const BLE_HS_EALREADY: u32 = 2;
pub const BLE_HS_EINVAL: u32 = 3;
pub const BLE_HS_EMSGSIZE: u32 = 4;
pub const BLE_HS_ENOENT: u32 = 5;
pub const BLE_HS_ENOMEM: u32 = 6;
pub const BLE_HS_ENOTCONN: u32 = 7;
pub const BLE_HS_ENOTSUP: u32 = 8;
pub const BLE_HS_EAPP: u32 = 9;
pub const BLE_HS_EBADDATA: u32 = 10;
pub const BLE_HS_EOS: u32 = 11;
pub const BLE_HS_ECONTROLLER: u32 = 12;
pub const BLE_HS_ETIMEOUT: u32 = 13;
pub const BLE_HS_EDONE: u32 = 14;
pub const BLE_HS_EBUSY: u32 = 15;
pub const BLE_HS_EREJECT: u32 = 16;
pub const BLE_HS_EUNKNOWN: u32 = 17;
pub const BLE_HS_EROLE: u32 = 18;
pub const BLE_HS_ETIMEOUT_HCI: u32 = 19;
pub const BLE_HS_ENOMEM_EVT: u32 = 20;
pub const BLE_HS_ENOADDR: u32 = 21;
pub const BLE_HS_ENOTSYNCED: u32 = 22;
pub const BLE_HS_EAUTHEN: u32 = 23;
pub const BLE_HS_EAUTHOR: u32 = 24;
pub const BLE_HS_EENCRYPT: u32 = 25;
pub const BLE_HS_EENCRYPT_KEY_SZ: u32 = 26;
pub const BLE_HS_ESTORE_CAP: u32 = 27;
pub const BLE_HS_ESTORE_FAIL: u32 = 28;

// Attribute-protocol codes, local to their range.
pub const BLE_ATT_ERR_INVALID_HANDLE: u32 = 0x01;
pub const BLE_ATT_ERR_READ_NOT_PERMITTED: u32 = 0x02;
pub const BLE_ATT_ERR_WRITE_NOT_PERMITTED: u32 = 0x03;
pub const BLE_ATT_ERR_INVALID_PDU: u32 = 0x04;
pub const BLE_ATT_ERR_INSUFFICIENT_AUTHEN: u32 = 0x05;
pub const BLE_ATT_ERR_REQ_NOT_SUPPORTED: u32 = 0x06;
pub const BLE_ATT_ERR_INVALID_OFFSET: u32 = 0x07;
pub const BLE_ATT_ERR_INSUFFICIENT_AUTHOR: u32 = 0x08;
pub const BLE_ATT_ERR_PREPARE_QUEUE_FULL: u32 = 0x09;
pub const BLE_ATT_ERR_ATTR_NOT_FOUND: u32 = 0x0a;
pub const BLE_ATT_ERR_ATTR_NOT_LONG: u32 = 0x0b;
pub const BLE_ATT_ERR_INSUFFICIENT_KEY_SZ: u32 = 0x0c;
pub const BLE_ATT_ERR_INVALID_ATTR_VALUE_LEN: u32 = 0x0d;
pub const BLE_ATT_ERR_UNLIKELY: u32 = 0x0e;
pub const BLE_ATT_ERR_INSUFFICIENT_ENC: u32 = 0x0f;
pub const BLE_ATT_ERR_UNSUPPORTED_GROUP: u32 = 0x10;
pub const BLE_ATT_ERR_INSUFFICIENT_RES: u32 = 0x11;

// HCI codes, local to their range.
pub const BLE_ERR_UNKNOWN_HCI_CMD: u32 = 0x01;
pub const BLE_ERR_UNK_CONN_ID: u32 = 0x02;
pub const BLE_ERR_AUTH_FAIL: u32 = 0x05;
pub const BLE_ERR_INV_HCI_CMD_PARMS: u32 = 0x12;
pub const BLE_ERR_REM_USER_CONN_TERM: u32 = 0x13;
pub const BLE_ERR_CONN_TERM_LOCAL: u32 = 0x16;
pub const BLE_ERR_CONN_ESTABLISHMENT: u32 = 0x3e;

// L2CAP signalling codes, local to their range.
pub const BLE_L2CAP_SIG_ERR_CMD_NOT_UNDERSTOOD: u32 = 0x0000;
pub const BLE_L2CAP_SIG_ERR_MTU_EXCEEDED: u32 = 0x0001;
pub const BLE_L2CAP_SIG_ERR_INVALID_CID: u32 = 0x0002;

// Security-manager pairing codes, local to their range.
pub const BLE_SM_ERR_PASSKEY: u32 = 0x01;
pub const BLE_SM_ERR_OOB: u32 = 0x02;
pub const BLE_SM_ERR_AUTHREQ: u32 = 0x03;
pub const BLE_SM_ERR_CONFIRM_MISMATCH: u32 = 0x04;
pub const BLE_SM_ERR_PAIR_NOT_SUPP: u32 = 0x05;
pub const BLE_SM_ERR_ENC_KEY_SZ: u32 = 0x06;
pub const BLE_SM_ERR_CMD_NOT_SUPP: u32 = 0x07;
pub const BLE_SM_ERR_UNSPECIFIED: u32 = 0x08;
pub const BLE_SM_ERR_REPEATED: u32 = 0x09;
pub const BLE_SM_ERR_INVAL: u32 = 0x0a;
pub const BLE_SM_ERR_DHKEY: u32 = 0x0b;
pub const BLE_SM_ERR_NUMCMP: u32 = 0x0c;
pub const BLE_SM_ERR_ALREADY: u32 = 0x0d;
pub const BLE_SM_ERR_CROSS_TRANS: u32 = 0x0e;

/// The unsigned 32-bit representation of a signed code.
pub open spec fn to_unsigned(rc: i32) -> u32 {
    if rc >= 0 {
        rc as u32
    } else {
        (rc + 0x1_0000_0000) as u32
    }
}

/// The signed 32-bit representation of an unsigned code.
pub open spec fn to_signed(code: u32) -> i32 {
    if code < 0x8000_0000 {
        code as i32
    } else {
        (code - 0x1_0000_0000) as i32
    }
}

/// An unsigned code is read back from its signed representation; zero, and
/// nothing else, is zero in both.
pub proof fn lemma_signed_round_trip(code: u32)
    ensures
        to_unsigned(to_signed(code)) == code,
        to_signed(code) == 0 <==> code == 0,
{
}

/// A signed code is read back from its unsigned representation.
pub proof fn lemma_unsigned_round_trip(rc: i32)
    ensures
        to_signed(to_unsigned(rc)) == rc,
        to_unsigned(rc) == 0 <==> rc == 0,
{
}

/// Reads a signed code as unsigned, bit for bit.
pub fn unsigned_of(rc: i32) -> (code: u32)
    ensures
        code == to_unsigned(rc),
{
    if rc >= 0 {
        rc as u32
    } else {
        let low: u32 = (rc - i32::MIN) as u32;
        low + 0x8000_0000
    }
}

/// Reads an unsigned code as signed, bit for bit.
pub fn signed_of(code: u32) -> (rc: i32)
    ensures
        rc == to_signed(code),
{
    if code < 0x8000_0000 {
        code as i32
    } else {
        let low: i32 = (code - 0x8000_0000) as i32;
        low + i32::MIN
    }
}

} // verus!
