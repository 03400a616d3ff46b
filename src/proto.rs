//! The few message bodies that the client writes itself, in the message
//! catalog's protobuf encoding.
use vstd::prelude::*;
use vstd::utf8::*;

verus! {

/// Largest field number of protobuf.
pub const MAX_FIELD_TAG: u32 = 0x1FFF_FFFF;

/// Field number of the secret in a handshake body.
pub const HANDSHAKE_SECRET_TAG: u32 = 1;

/// Base-128 varint of `v`, least significant group first.
pub open spec fn varint(v: nat) -> Seq<u8>
    decreases v,
{
    if v < 0x80 {
        seq![v as u8]
    } else {
        seq![((v % 0x80) + 0x80) as u8] + varint(v / 0x80)
    }
}

/// A length-delimited field `tag` holding the UTF-8 of `s`.
pub open spec fn string_field(tag: nat, s: Seq<char>) -> Seq<u8> {
    varint(tag * 8 + 2) + varint(encode_utf8(s).len()) + encode_utf8(s)
}

/// Relies on `prost::encoding::string::encode`: it appends the key varint
/// `(tag << 3) | 2`, the varint of the byte length, and the bytes.
#[verifier::external_body]
fn encode_string_field(tag: u32, value: &String, buf: &mut Vec<u8>)
    requires
        1 <= tag <= MAX_FIELD_TAG,
    ensures
        final(buf)@ == old(buf)@ + string_field(tag as nat, value@),
{
    prost::encoding::string::encode(tag, value, buf)
}

/// Body of a handshake: the secret in field 1.
pub open spec fn handshake_body(secret: Seq<char>) -> Seq<u8> {
    string_field(HANDSHAKE_SECRET_TAG as nat, secret)
}

/// Encodes the body of a handshake that carries `secret`.
pub fn encode_handshake(secret: &String) -> (r: Vec<u8>)
    ensures
        r@ == handshake_body(secret@),
{
    let mut buf: Vec<u8> = Vec::new();
    encode_string_field(HANDSHAKE_SECRET_TAG, secret, &mut buf);
    assert(buf@ =~= handshake_body(secret@));
    buf
}

} // verus!
