//! Content digests: 32 opaque bytes, computed elsewhere and compared here.
use vstd::prelude::*;

verus! {

/// A 32-byte content digest.
#[derive(Debug, Clone, Copy, Eq)]
pub struct ContentDigest {
    bytes: [u8; 32],
}

pub type PvcIdentityDigest = ContentDigest;

pub type AgentMountIdentityDigest = ContentDigest;

pub type ManifestId = ContentDigest;

pub type ObjectId = ContentDigest;

pub type CommitId = ContentDigest;

impl View for ContentDigest {
    type V = Seq<u8>;

    closed spec fn view(&self) -> Seq<u8> {
        self.bytes@
    }
}

/// Digests of equal bytes are the same digest.
pub broadcast proof fn lemma_digest_is_its_bytes(left: ContentDigest, right: ContentDigest)
    ensures
        #![trigger left@, right@]
        (left@ == right@) == (left == right),
{
    broadcast use vstd::array::group_array_axioms;

    if left@ == right@ {
        assert(left.bytes =~= right.bytes);
    }
}

impl ContentDigest {
    #[must_use]
    pub fn from_bytes(bytes: [u8; 32]) -> (digest: Self)
        ensures
            digest@ == bytes@,
    {
        Self { bytes }
    }

    #[must_use]
    pub fn as_bytes(&self) -> (bytes: &[u8; 32])
        ensures
            bytes@ == self@,
    {
        &self.bytes
    }
}

/// The lower-case hexadecimal digit of a number below sixteen.
pub open spec fn hex_digit(value: int) -> char {
    if value < 10 {
        (('0' as int) + value) as char
    } else {
        (('a' as int) + (value - 10)) as char
    }
}

/// Two hexadecimal digits per byte.
pub open spec fn digest_text(bytes: Seq<u8>) -> Seq<char>
    decreases bytes.len(),
{
    if bytes.len() == 0 {
        Seq::empty()
    } else {
        digest_text(bytes.drop_last()).push(hex_digit(bytes.last() as int / 16)).push(
            hex_digit(bytes.last() as int % 16),
        )
    }
}

fn hex_digit_text(value: u8) -> (text: &'static str)
    requires
        value < 16,
    ensures
        text@ == seq![hex_digit(value as int)],
{
    proof {
        reveal_strlit("0");
        reveal_strlit("1");
        reveal_strlit("2");
        reveal_strlit("3");
        reveal_strlit("4");
        reveal_strlit("5");
        reveal_strlit("6");
        reveal_strlit("7");
        reveal_strlit("8");
        reveal_strlit("9");
        reveal_strlit("a");
        reveal_strlit("b");
        reveal_strlit("c");
        reveal_strlit("d");
        reveal_strlit("e");
        reveal_strlit("f");
    }
    match value {
        0 => "0",
        1 => "1",
        2 => "2",
        3 => "3",
        4 => "4",
        5 => "5",
        6 => "6",
        7 => "7",
        8 => "8",
        9 => "9",
        10 => "a",
        11 => "b",
        12 => "c",
        13 => "d",
        14 => "e",
        _ => "f",
    }
}

/// A digest in hexadecimal, as messages show it.
#[must_use]
pub fn hex_text(digest: &ContentDigest) -> (text: String)
    ensures
        text@ == digest_text(digest@),
{
    broadcast use vstd::array::group_array_axioms;

    let mut text = String::new();
    let mut index: usize = 0;
    while index < 32
        invariant
            index <= 32,
            text@ == digest_text(digest.bytes@.take(index as int)),
        decreases 32 - index,
    {
        let byte: u8 = digest.bytes[index];
        proof {
            assert(digest.bytes@.take(index + 1).drop_last() =~= digest.bytes@.take(index as int));
        }
        text.append(hex_digit_text(byte / 16));
        text.append(hex_digit_text(byte % 16));
        index += 1;
    }
    assert(digest.bytes@.take(32) =~= digest@);
    text
}

impl PartialEq for ContentDigest {
    fn eq(&self, other: &Self) -> (equal: bool) {
        broadcast use {vstd::array::group_array_axioms, lemma_digest_is_its_bytes};
        let mut index: usize = 0;
        while index < 32
            invariant
                index <= 32,
                forall|i: int| 0 <= i < index ==> self.bytes@[i] == other.bytes@[i],
            decreases 32 - index,
        {
            if self.bytes[index] != other.bytes[index] {
                assert(self@ != other@);
                return false;
            }
            index += 1;
        }
        assert(self@ =~= other@);
        true
    }
}

impl vstd::std_specs::cmp::PartialEqSpecImpl for ContentDigest {
    open spec fn obeys_eq_spec() -> bool {
        true
    }

    open spec fn eq_spec(&self, other: &Self) -> bool {
        *self == *other
    }
}

} // verus!
