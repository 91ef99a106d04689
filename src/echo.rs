use vstd::prelude::*;

verus! {

/// Length of every echo request that is sent.
pub const ECHO_LEN: usize = 16;

/// ICMPv6 message type of an echo request.
pub const ECHO_REQUEST_TYPE: u8 = 128;

/// The big-endian 16-bit word at word index `k`.
pub open spec fn be_word(d: Seq<u8>, k: int) -> nat {
    (d[2 * k] as nat) * 256 + (d[2 * k + 1] as nat)
}

/// The sum of the first `n` big-endian words of `d`, leaving out word `skip`.
pub open spec fn word_sum(d: Seq<u8>, skip: nat, n: nat) -> nat
    decreases n,
{
    if n == 0 {
        0
    } else {
        word_sum(d, skip, (n - 1) as nat) + if n - 1 == skip {
            0
        } else {
            be_word(d, n - 1)
        }
    }
}

/// The sum of all big-endian words of `d` but word `skip`; a last odd byte counts as the
/// high byte of a word, whose index is then `d.len() / 2`.
pub open spec fn be_words_sum(d: Seq<u8>, skip: nat) -> nat {
    word_sum(d, skip, d.len() / 2) + if d.len() % 2 == 1 && d.len() / 2 != skip {
        (d[d.len() - 1] as nat) * 256
    } else {
        0
    }
}

/// Adds the carries above 16 bits back into the low 16 bits.
pub open spec fn fold_once(s: nat) -> nat {
    s / 0x10000 + s % 0x10000
}

/// The one's-complement sum in 16 bits of a sum under 2^32: two folds bring it under
/// 2^16.
pub open spec fn ones_complement_sum(s: nat) -> nat {
    fold_once(fold_once(s))
}

/// The internet checksum of `d` with word `skip` left out (the checksum field itself):
/// the complement of the one's-complement sum of its big-endian words; 0 for no bytes.
pub open spec fn internet_checksum(d: Seq<u8>, skip: nat) -> u16 {
    if d.len() == 0 {
        0
    } else {
        (0xffff - ones_complement_sum(be_words_sum(d, skip))) as u16
    }
}

/// The echo request before its checksum is set: the type byte, then zeros.
pub open spec fn echo_template() -> Seq<u8> {
    Seq::new(ECHO_LEN as nat, |i: int| if i == 0 { ECHO_REQUEST_TYPE } else { 0u8 })
}

/// `d` with the checksum field (bytes 2 and 3) set to `c`, big-endian.
pub open spec fn with_checksum(d: Seq<u8>, c: u16) -> Seq<u8> {
    d.update(2, (c / 256) as u8).update(3, (c % 256) as u8)
}

/// The echo request as sent: the template with its checksum filled in.
pub open spec fn echo_request() -> Seq<u8> {
    with_checksum(echo_template(), internet_checksum(echo_template(), 1))
}

/// Relies on `pnet::packet::util::checksum`: the internet checksum of the bytes, skipping
/// word `skipword`. Its sum is a `u32`, which the length bound keeps from overflowing.
#[verifier::external_body]
fn pnet_checksum(data: &Vec<u8>, skipword: usize) -> (r: u16)
    requires
        data@.len() <= 0x20000,
    ensures
        r == internet_checksum(data@, skipword as nat),
{
    pnet::packet::util::checksum(data.as_slice(), skipword)
}

/// Relies on `MutableIcmpv6Packet::new` and `set_icmpv6_type`: the type is the first byte;
/// `new` refuses a buffer shorter than the 4-byte header.
#[verifier::external_body]
fn set_icmpv6_type(buf: &mut Vec<u8>, t: u8)
    requires
        old(buf)@.len() >= 4,
    ensures
        final(buf)@ == old(buf)@.update(0, t),
{
    let mut packet = pnet::packet::icmpv6::MutableIcmpv6Packet::new(buf.as_mut_slice()).unwrap();
    packet.set_icmpv6_type(pnet::packet::icmpv6::Icmpv6Type::new(t));
}

/// Relies on `MutableIcmpv6Packet::new` and `set_checksum`: the checksum is bytes 2 and 3,
/// big-endian.
#[verifier::external_body]
fn set_icmpv6_checksum(buf: &mut Vec<u8>, c: u16)
    requires
        old(buf)@.len() >= 4,
    ensures
        final(buf)@ == with_checksum(old(buf)@, c),
{
    let mut packet = pnet::packet::icmpv6::MutableIcmpv6Packet::new(buf.as_mut_slice()).unwrap();
    packet.set_checksum(c);
}

/// Builds one echo request: type "echo request", everything else zero, and a checksum
/// computed afresh over those bytes.
pub fn build_echo_request() -> (r: Vec<u8>)
    ensures
        r@ == echo_request(),
        r@.len() == ECHO_LEN,
{
    let mut buf: Vec<u8> = vec![0u8; 16];
    set_icmpv6_type(&mut buf, ECHO_REQUEST_TYPE);
    assert(buf@ =~= echo_template());
    let csum = pnet_checksum(&buf, 1);
    set_icmpv6_checksum(&mut buf, csum);
    buf
}

/// The echo request's checksum is sound: summing all of its words, checksum included,
/// in one's complement gives 0xffff, as a receiver recomputes it. Its bytes are `0x80`,
/// `0`, then the checksum `0x7fff`, then twelve zeros.
pub proof fn lemma_echo_checksum_verifies()
    ensures
        internet_checksum(echo_template(), 1) == 0x7fff,
        echo_request() == seq![128u8, 0, 0x7f, 0xff, 0, 0, 0, 0, 0, 0, 0, 0, 0, 0, 0, 0],
        ones_complement_sum(be_words_sum(echo_request(), ECHO_LEN as nat)) == 0xffff,
{
    let t = echo_template();
    reveal_with_fuel(word_sum, 9);
    assert(be_words_sum(t, 1) == 0x8000);
    let e = echo_request();
    assert(e =~= seq![128u8, 0, 0x7f, 0xff, 0, 0, 0, 0, 0, 0, 0, 0, 0, 0, 0, 0]);
    assert(be_words_sum(e, ECHO_LEN as nat) == 0xffff);
}

} // verus!
