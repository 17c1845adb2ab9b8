//! The identifier of a peer.

use std::cmp::Ordering;
use vstd::prelude::*;
use vstd::std_specs::cmp::{PartialEqSpecImpl, PartialOrdSpecImpl};

verus! {

/// The identifier of a peer: sixteen bytes.
///
/// Identifiers are equal when their bytes are, and they are ordered as byte
/// strings: by the first byte in which they differ.
#[derive(Clone, Copy, Debug, Eq, Ord, Hash)]
pub struct PeerId {
    bytes: [u8; 16],
}

impl View for PeerId {
    type V = Seq<u8>;

    closed spec fn view(&self) -> Seq<u8> {
        self.bytes@
    }
}

/// The hexadecimal digit of a value below sixteen.
pub open spec fn hex_digit(nibble: int) -> char {
    "0123456789abcdef"@[nibble]
}

/// The two hexadecimal digits of a byte, the high one first.
pub open spec fn hex_byte(byte: u8) -> Seq<char> {
    seq![hex_digit(byte as int / 16), hex_digit(byte as int % 16)]
}

/// The bytes in lowercase hexadecimal, two digits to the byte.
pub open spec fn hex(bytes: Seq<u8>) -> Seq<char> {
    Seq::new(2 * bytes.len(), |at: int| hex_byte(bytes[at / 2])[at % 2])
}

/// The first four bytes in lowercase hexadecimal.
pub open spec fn short_hex(bytes: Seq<u8>) -> Seq<char>
    recommends
        bytes.len() >= 4,
{
    hex(bytes.take(4))
}

/// One hexadecimal digit as a string.
fn hex_digit_str(nibble: u8) -> (digit: &'static str)
    requires
        nibble < 16,
    ensures
        digit@ == seq![hex_digit(nibble as int)],
{
    proof {
        reveal_strlit("0123456789abcdef");
        reveal_strlit("0");
        reveal_strlit("1");
        reveal_strlit("2");
        reveal_strlit("3");
        reveal_strlit("4");
        reveal_strlit("5");
        reveal_strlit("6");
        reveal_strlit("7");
        reveal_strlit("8");
        reveal_strlit("9");
        reveal_strlit("a");
        reveal_strlit("b");
        reveal_strlit("c");
        reveal_strlit("d");
        reveal_strlit("e");
        reveal_strlit("f");
    }
    let digit: &'static str = match nibble {
        0 => "0",
        1 => "1",
        2 => "2",
        3 => "3",
        4 => "4",
        5 => "5",
        6 => "6",
        7 => "7",
        8 => "8",
        9 => "9",
        10 => "a",
        11 => "b",
        12 => "c",
        13 => "d",
        14 => "e",
        _ => "f",
    };
    assert(digit@ =~= seq![hex_digit(nibble as int)]);
    digit
}

/// Appends the two hexadecimal digits of a byte.
fn push_hex_byte(text: &mut String, byte: u8)
    ensures
        final(text)@ == old(text)@ + hex_byte(byte),
{
    text.append(hex_digit_str(byte / 16));
    text.append(hex_digit_str(byte % 16));
    assert(text@ =~= old(text)@ + hex_byte(byte));
}

impl PeerId {
    pub fn new(bytes: [u8; 16]) -> (id: PeerId)
        ensures
            id@ == bytes@,
    {
        PeerId { bytes }
    }

    pub fn into_bytes(self) -> (bytes: [u8; 16])
        ensures
            bytes@ == self@,
    {
        self.bytes
    }

    /// An identifier always has sixteen bytes.
    pub proof fn lemma_len(self)
        ensures
            self@.len() == 16,
    {
    }

    /// A short form of the identifier for logs: the first four bytes in
    /// lowercase hexadecimal.
    pub fn short_str(&self) -> (short: String)
        ensures
            short@ == short_hex(self@),
            short@.len() == 8,
    {
        let mut short = String::new();
        push_hex_byte(&mut short, self.bytes[0]);
        push_hex_byte(&mut short, self.bytes[1]);
        push_hex_byte(&mut short, self.bytes[2]);
        push_hex_byte(&mut short, self.bytes[3]);
        assert(short@ =~= short_hex(self@));
        short
    }

    /// The whole identifier in lowercase hexadecimal, as documents hold it.
    pub fn to_hex(&self) -> (text: String)
        ensures
            text@ == hex(self@),
            text@.len() == 32,
    {
        address_to_hex(self.bytes)
    }
}

/// Calls `AccountAddress::to_hex` of move-core-types on the address with the
/// given bytes. It formats the address with `{:x}`, which writes each byte,
/// from the first to the last, as two lowercase hexadecimal digits.
#[verifier::external_body]
fn address_to_hex(bytes: [u8; 16]) -> (text: String)
    ensures
        text@ == hex(bytes@),
{
    diem_types::PeerId::new(bytes).to_hex()
}

/// The short form of an identifier is the beginning of its long form.
pub proof fn lemma_short_hex_is_prefix(bytes: Seq<u8>)
    requires
        bytes.len() >= 4,
    ensures
        short_hex(bytes) == hex(bytes).take(8),
{
    assert(short_hex(bytes) =~= hex(bytes).take(8));
}

/// Whether `at` is the first place in which `a` and `b` differ.
pub open spec fn is_first_difference(a: Seq<u8>, b: Seq<u8>, at: int) -> bool {
    &&& 0 <= at < a.len()
    &&& at < b.len()
    &&& a[at] != b[at]
    &&& forall|earlier: int| 0 <= earlier < at ==> a[earlier] == b[earlier]
}

/// Whether `a` stands before `b` in the order of byte strings of one length:
/// in the first place in which they differ, `a` has the smaller byte.
pub open spec fn bytes_before(a: Seq<u8>, b: Seq<u8>) -> bool {
    exists|at: int| is_first_difference(a, b, at) && a[at] < b[at]
}

/// Two byte strings have at most one first difference.
pub proof fn lemma_first_difference_unique(a: Seq<u8>, b: Seq<u8>, at: int, other: int)
    requires
        is_first_difference(a, b, at),
        is_first_difference(a, b, other),
    ensures
        at == other,
{
    if at < other {
        assert(a[at] == b[at]);
    } else if other < at {
        assert(a[other] == b[other]);
    }
}

/// Finds the first place in which two identifiers differ.
fn first_difference(a: &PeerId, b: &PeerId) -> (found: Option<usize>)
    ensures
        match found {
            Some(at) => is_first_difference(a@, b@, at as int),
            None => a@ == b@ && *a == *b,
        },
        forall|other: int| is_first_difference(a@, b@, other) ==> found == Some(other as usize),
{
    let mut at: usize = 0;
    while at < 16
        invariant
            at <= 16,
            forall|earlier: int| 0 <= earlier < at ==> a@[earlier] == b@[earlier],
        decreases 16 - at,
    {
        if a.bytes[at] != b.bytes[at] {
            assert forall|other: int| is_first_difference(a@, b@, other) implies other
                == at as int by {
                lemma_first_difference_unique(a@, b@, at as int, other);
            }
            return Some(at);
        }
        at += 1;
    }
    assert(a@ =~= b@);
    assert(a.bytes =~= b.bytes);
    None
}

impl PartialEq for PeerId {
    fn eq(&self, other: &Self) -> (equal: bool) {
        first_difference(self, other).is_none()
    }
}

impl PartialEqSpecImpl for PeerId {
    open spec fn obeys_eq_spec() -> bool {
        true
    }

    open spec fn eq_spec(&self, other: &Self) -> bool {
        *self == *other
    }
}

impl PartialOrd for PeerId {
    fn partial_cmp(&self, other: &Self) -> (r: Option<Ordering>) {
        match first_difference(self, other) {
            None => Some(Ordering::Equal),
            Some(at) => {
                if self.bytes[at] < other.bytes[at] {
                    Some(Ordering::Less)
                } else {
                    Some(Ordering::Greater)
                }
            },
        }
    }
}

impl PartialOrdSpecImpl for PeerId {
    open spec fn obeys_partial_cmp_spec() -> bool {
        true
    }

    open spec fn partial_cmp_spec(&self, other: &Self) -> Option<Ordering> {
        if *self == *other {
            Some(Ordering::Equal)
        } else if bytes_before(self@, other@) {
            Some(Ordering::Less)
        } else {
            Some(Ordering::Greater)
        }
    }
}

/// Identifiers with the same bytes are the same identifier.
pub proof fn lemma_peer_id_by_bytes(a: PeerId, b: PeerId)
    ensures
        a@ == b@ <==> a == b,
{
    if a@ == b@ {
        assert(a.bytes =~= b.bytes);
    }
}

/// Of two identifiers, either they are equal or exactly one stands before the
/// other.
pub proof fn lemma_peer_order_total(a: PeerId, b: PeerId)
    ensures
        a == b || bytes_before(a@, b@) || bytes_before(b@, a@),
        !(a == b && bytes_before(a@, b@)),
        !(bytes_before(a@, b@) && bytes_before(b@, a@)),
{
    if a != b {
        lemma_peer_id_by_bytes(a, b);
        assert(!(a@ =~= b@));
        let differs = choose|index: int| 0 <= index < 16 && a@[index] != b@[index];
        lemma_difference_has_first(a@, b@, differs);
        let at = choose|at: int| is_first_difference(a@, b@, at);
        assert(is_first_difference(b@, a@, at));
    }
    if bytes_before(a@, b@) && bytes_before(b@, a@) {
        let forth = choose|at: int| is_first_difference(a@, b@, at) && a@[at] < b@[at];
        let back = choose|at: int| is_first_difference(b@, a@, at) && b@[at] < a@[at];
        assert(is_first_difference(a@, b@, back));
        lemma_first_difference_unique(a@, b@, forth, back);
    }
}

/// Byte strings that differ somewhere differ somewhere first.
pub proof fn lemma_difference_has_first(a: Seq<u8>, b: Seq<u8>, at: int)
    requires
        0 <= at < a.len(),
        at < b.len(),
        a[at] != b[at],
    ensures
        exists|first: int| is_first_difference(a, b, first),
    decreases at,
{
    if exists|earlier: int| 0 <= earlier < at && a[earlier] != b[earlier] {
        let earlier = choose|earlier: int| 0 <= earlier < at && a[earlier] != b[earlier];
        lemma_difference_has_first(a, b, earlier);
    } else {
        assert(is_first_difference(a, b, at));
    }
}

/// The order of byte strings is transitive.
pub proof fn lemma_bytes_before_transitive(a: Seq<u8>, b: Seq<u8>, c: Seq<u8>)
    requires
        a.len() == b.len(),
        b.len() == c.len(),
        bytes_before(a, b),
        bytes_before(b, c),
    ensures
        bytes_before(a, c),
{
    let first = choose|at: int| is_first_difference(a, b, at) && a[at] < b[at];
    let second = choose|at: int| is_first_difference(b, c, at) && b[at] < c[at];
    let at = if first <= second {
        first
    } else {
        second
    };
    assert(is_first_difference(a, c, at) && a[at] < c[at]);
}

/// Calls `AccountAddress::random` of move-core-types, the type that
/// diem-types names `PeerId`, and takes the bytes of the address it returns.
/// The address is drawn from the operating system's random source, so the
/// contract promises nothing of the bytes.
#[verifier::external_body]
fn random_address() -> (bytes: [u8; 16]) {
    diem_types::PeerId::random().into_bytes()
}

impl PeerId {
    /// A fresh identifier drawn at random.
    pub fn random() -> (id: PeerId)
        ensures
            id@.len() == 16,
    {
        PeerId::new(random_address())
    }
}

} // verus!
