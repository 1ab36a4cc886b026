use vstd::prelude::*;

verus! {

/// A value that can travel through the transport as a sequence of machine words.
///
/// `canonical_name` gives the canonical name of the type, from which the channel derives the
/// type's fingerprint; `encode` and `decode` move a value to and from its word form, and
/// decoding the words of a value gives that value back.
pub trait Payload: Copy + Send + Sync + Sized {
    /// The canonical name of the type.
    spec fn name_spec() -> Seq<char>;

    /// The words that stand for `self`.
    spec fn to_words(self) -> Seq<u64>;

    /// The value that `words` stand for, if any.
    spec fn from_words(words: Seq<u64>) -> Option<Self>;

    /// Decoding the words of a value gives that value back.
    proof fn lemma_round_trip(v: Self)
        ensures
            Self::from_words(v.to_words()) == Some(v),
    ;

    fn canonical_name() -> (r: &'static str)
        ensures
            r@ == Self::name_spec(),
    ;

    fn encode(&self) -> (r: Vec<u64>)
        ensures
            r@ == self.to_words(),
    ;

    fn decode(words: &Vec<u64>) -> (r: Option<Self>)
        ensures
            r == Self::from_words(words@),
    ;
}

impl Payload for i8 {
    open spec fn name_spec() -> Seq<char> {
        "i8"@
    }

    open spec fn to_words(self) -> Seq<u64> {
        seq![self as u64]
    }

    open spec fn from_words(words: Seq<u64>) -> Option<i8> {
        if words.len() == 1 {
            Some(words[0] as i8)
        } else {
            None
        }
    }

    proof fn lemma_round_trip(v: i8) {
        assert((v as u64) as i8 == v) by (bit_vector);
        assert(seq![v as u64][0] == v as u64);
    }

    fn canonical_name() -> (r: &'static str) {
        proof {
            reveal_strlit("i8");
        }
        "i8"
    }

    fn encode(&self) -> (r: Vec<u64>) {
        vec![*self as u64]
    }

    fn decode(words: &Vec<u64>) -> (r: Option<i8>) {
        if words.len() == 1 {
            Some(words[0] as i8)
        } else {
            None
        }
    }
}

impl Payload for i16 {
    open spec fn name_spec() -> Seq<char> {
        "i16"@
    }

    open spec fn to_words(self) -> Seq<u64> {
        seq![self as u64]
    }

    open spec fn from_words(words: Seq<u64>) -> Option<i16> {
        if words.len() == 1 {
            Some(words[0] as i16)
        } else {
            None
        }
    }

    proof fn lemma_round_trip(v: i16) {
        assert((v as u64) as i16 == v) by (bit_vector);
        assert(seq![v as u64][0] == v as u64);
    }

    fn canonical_name() -> (r: &'static str) {
        proof {
            reveal_strlit("i16");
        }
        "i16"
    }

    fn encode(&self) -> (r: Vec<u64>) {
        vec![*self as u64]
    }

    fn decode(words: &Vec<u64>) -> (r: Option<i16>) {
        if words.len() == 1 {
            Some(words[0] as i16)
        } else {
            None
        }
    }
}

impl Payload for i32 {
    open spec fn name_spec() -> Seq<char> {
        "i32"@
    }

    open spec fn to_words(self) -> Seq<u64> {
        seq![self as u64]
    }

    open spec fn from_words(words: Seq<u64>) -> Option<i32> {
        if words.len() == 1 {
            Some(words[0] as i32)
        } else {
            None
        }
    }

    proof fn lemma_round_trip(v: i32) {
        assert((v as u64) as i32 == v) by (bit_vector);
        assert(seq![v as u64][0] == v as u64);
    }

    fn canonical_name() -> (r: &'static str) {
        proof {
            reveal_strlit("i32");
        }
        "i32"
    }

    fn encode(&self) -> (r: Vec<u64>) {
        vec![*self as u64]
    }

    fn decode(words: &Vec<u64>) -> (r: Option<i32>) {
        if words.len() == 1 {
            Some(words[0] as i32)
        } else {
            None
        }
    }
}

impl Payload for i64 {
    open spec fn name_spec() -> Seq<char> {
        "i64"@
    }

    open spec fn to_words(self) -> Seq<u64> {
        seq![self as u64]
    }

    open spec fn from_words(words: Seq<u64>) -> Option<i64> {
        if words.len() == 1 {
            Some(words[0] as i64)
        } else {
            None
        }
    }

    proof fn lemma_round_trip(v: i64) {
        assert((v as u64) as i64 == v) by (bit_vector);
        assert(seq![v as u64][0] == v as u64);
    }

    fn canonical_name() -> (r: &'static str) {
        proof {
            reveal_strlit("i64");
        }
        "i64"
    }

    fn encode(&self) -> (r: Vec<u64>) {
        vec![*self as u64]
    }

    fn decode(words: &Vec<u64>) -> (r: Option<i64>) {
        if words.len() == 1 {
            Some(words[0] as i64)
        } else {
            None
        }
    }
}

impl Payload for isize {
    open spec fn name_spec() -> Seq<char> {
        "isize"@
    }

    open spec fn to_words(self) -> Seq<u64> {
        seq![self as u64]
    }

    open spec fn from_words(words: Seq<u64>) -> Option<isize> {
        if words.len() == 1 {
            Some(words[0] as isize)
        } else {
            None
        }
    }

    proof fn lemma_round_trip(v: isize) {
        assert((v as u64) as isize == v) by (bit_vector);
        assert(seq![v as u64][0] == v as u64);
    }

    fn canonical_name() -> (r: &'static str) {
        proof {
            reveal_strlit("isize");
        }
        "isize"
    }

    fn encode(&self) -> (r: Vec<u64>) {
        vec![*self as u64]
    }

    fn decode(words: &Vec<u64>) -> (r: Option<isize>) {
        if words.len() == 1 {
            Some(words[0] as isize)
        } else {
            None
        }
    }
}

impl Payload for u8 {
    open spec fn name_spec() -> Seq<char> {
        "u8"@
    }

    open spec fn to_words(self) -> Seq<u64> {
        seq![self as u64]
    }

    open spec fn from_words(words: Seq<u64>) -> Option<u8> {
        if words.len() == 1 {
            Some(words[0] as u8)
        } else {
            None
        }
    }

    proof fn lemma_round_trip(v: u8) {
        assert((v as u64) as u8 == v) by (bit_vector);
        assert(seq![v as u64][0] == v as u64);
    }

    fn canonical_name() -> (r: &'static str) {
        proof {
            reveal_strlit("u8");
        }
        "u8"
    }

    fn encode(&self) -> (r: Vec<u64>) {
        vec![*self as u64]
    }

    fn decode(words: &Vec<u64>) -> (r: Option<u8>) {
        if words.len() == 1 {
            Some(words[0] as u8)
        } else {
            None
        }
    }
}

impl Payload for u16 {
    open spec fn name_spec() -> Seq<char> {
        "u16"@
    }

    open spec fn to_words(self) -> Seq<u64> {
        seq![self as u64]
    }

    open spec fn from_words(words: Seq<u64>) -> Option<u16> {
        if words.len() == 1 {
            Some(words[0] as u16)
        } else {
            None
        }
    }

    proof fn lemma_round_trip(v: u16) {
        assert((v as u64) as u16 == v) by (bit_vector);
        assert(seq![v as u64][0] == v as u64);
    }

    fn canonical_name() -> (r: &'static str) {
        proof {
            reveal_strlit("u16");
        }
        "u16"
    }

    fn encode(&self) -> (r: Vec<u64>) {
        vec![*self as u64]
    }

    fn decode(words: &Vec<u64>) -> (r: Option<u16>) {
        if words.len() == 1 {
            Some(words[0] as u16)
        } else {
            None
        }
    }
}

impl Payload for u32 {
    open spec fn name_spec() -> Seq<char> {
        "u32"@
    }

    open spec fn to_words(self) -> Seq<u64> {
        seq![self as u64]
    }

    open spec fn from_words(words: Seq<u64>) -> Option<u32> {
        if words.len() == 1 {
            Some(words[0] as u32)
        } else {
            None
        }
    }

    proof fn lemma_round_trip(v: u32) {
        assert((v as u64) as u32 == v) by (bit_vector);
        assert(seq![v as u64][0] == v as u64);
    }

    fn canonical_name() -> (r: &'static str) {
        proof {
            reveal_strlit("u32");
        }
        "u32"
    }

    fn encode(&self) -> (r: Vec<u64>) {
        vec![*self as u64]
    }

    fn decode(words: &Vec<u64>) -> (r: Option<u32>) {
        if words.len() == 1 {
            Some(words[0] as u32)
        } else {
            None
        }
    }
}

impl Payload for usize {
    open spec fn name_spec() -> Seq<char> {
        "usize"@
    }

    open spec fn to_words(self) -> Seq<u64> {
        seq![self as u64]
    }

    open spec fn from_words(words: Seq<u64>) -> Option<usize> {
        if words.len() == 1 {
            Some(words[0] as usize)
        } else {
            None
        }
    }

    proof fn lemma_round_trip(v: usize) {
        assert((v as u64) as usize == v) by (bit_vector);
        assert(seq![v as u64][0] == v as u64);
    }

    fn canonical_name() -> (r: &'static str) {
        proof {
            reveal_strlit("usize");
        }
        "usize"
    }

    fn encode(&self) -> (r: Vec<u64>) {
        vec![*self as u64]
    }

    fn decode(words: &Vec<u64>) -> (r: Option<usize>) {
        if words.len() == 1 {
            Some(words[0] as usize)
        } else {
            None
        }
    }
}

impl Payload for u64 {
    open spec fn name_spec() -> Seq<char> {
        "u64"@
    }

    open spec fn to_words(self) -> Seq<u64> {
        seq![self]
    }

    open spec fn from_words(words: Seq<u64>) -> Option<u64> {
        if words.len() == 1 {
            Some(words[0])
        } else {
            None
        }
    }

    proof fn lemma_round_trip(v: u64) {
        assert(seq![v][0] == v);
    }

    fn canonical_name() -> (r: &'static str) {
        proof {
            reveal_strlit("u64");
        }
        "u64"
    }

    fn encode(&self) -> (r: Vec<u64>) {
        vec![*self]
    }

    fn decode(words: &Vec<u64>) -> (r: Option<u64>) {
        if words.len() == 1 {
            Some(words[0])
        } else {
            None
        }
    }
}

impl Payload for bool {
    open spec fn name_spec() -> Seq<char> {
        "bool"@
    }

    open spec fn to_words(self) -> Seq<u64> {
        seq![if self { 1u64 } else { 0u64 }]
    }

    open spec fn from_words(words: Seq<u64>) -> Option<bool> {
        if words.len() == 1 {
            Some(words[0] != 0)
        } else {
            None
        }
    }

    proof fn lemma_round_trip(v: bool) {
        assert(seq![if v { 1u64 } else { 0u64 }][0] == if v { 1u64 } else { 0u64 });
    }

    fn canonical_name() -> (r: &'static str) {
        proof {
            reveal_strlit("bool");
        }
        "bool"
    }

    fn encode(&self) -> (r: Vec<u64>) {
        vec![if *self { 1u64 } else { 0u64 }]
    }

    fn decode(words: &Vec<u64>) -> (r: Option<bool>) {
        if words.len() == 1 {
            Some(words[0] != 0)
        } else {
            None
        }
    }
}

} // verus!
