use vstd::prelude::*;
use vstd::string::StringExecFns;
use vstd::utf8::encode_utf8;

verus! {

/// The length of the string, in bytes.
pub fn calculate_length(s: &String) -> (r: usize)
    ensures
        r == encode_utf8(s@).len() as usize,
{
    s.as_str().len()
}

/// Appends ", world" to the borrowed string.
pub fn mutable_change(some_string: &mut String)
    ensures
        final(some_string)@ == old(some_string)@ + ", world"@,
{
    some_string.append(", world");
}

/// Returns an owned greeting; nothing is borrowed, so nothing can dangle.
pub fn no_dangle() -> (r: String)
    ensures
        r@ == "hello"@,
{
    let s = String::from_str("hello");

    s
}

/// Returns the string together with its byte length, handing ownership back.
pub fn calculate_lengths(s: String) -> (r: (String, usize))
    ensures
        r.0 == s,
        r.1 == encode_utf8(s@).len() as usize,
{
    let length = s.as_str().len();

    (s, length)
}

/// Whether the first `i` bytes of `bytes` hold no space.
pub open spec fn no_space_before(bytes: Seq<u8>, i: int) -> bool {
    forall|j: int| 0 <= j < i ==> bytes[j] != 32u8
}

/// The byte index of the first space in the string, or its byte length
/// when it has none.
pub fn flawed_first_word(s: &String) -> (r: usize)
    ensures
        r <= encode_utf8(s@).len(),
        no_space_before(encode_utf8(s@), r as int),
        r < encode_utf8(s@).len() ==> encode_utf8(s@)[r as int] == 32u8,
{
    let st = s.as_str();
    let bytes = st.as_bytes();

    let mut i: usize = 0;
    while i < bytes.len()
        invariant
            i <= bytes.len(),
            bytes@ == encode_utf8(s@),
            no_space_before(bytes@, i as int),
        decreases bytes.len() - i,
    {
        if bytes[i] == 32u8 {
            return i;
        }
        i += 1;
    }

    st.len()
}

/// Whether the first `i` characters of `chars` hold no space.
pub open spec fn no_space_char_before(chars: Seq<char>, i: int) -> bool {
    forall|j: int| 0 <= j < i ==> chars[j] != ' '
}

/// The characters of the word before the first space: the whole string
/// when it has no space.
pub open spec fn first_word_spec(chars: Seq<char>) -> Seq<char>
    decreases chars.len(),
{
    if chars.len() == 0 {
        chars
    } else if chars[0] == ' ' {
        Seq::empty()
    } else {
        seq![chars[0]] + first_word_spec(chars.skip(1))
    }
}

/// The slice of `s` before its first space, or all of `s` when it has none.
pub fn first_word<'a>(s: &'a String) -> (r: &'a str)
    ensures
        r@ == first_word_spec(s@),
{
    improved_first_word(s.as_str())
}

/// The slice of `s` before its first space, or all of `s` when it has none.
pub fn improved_first_word<'a>(s: &'a str) -> (r: &'a str)
    ensures
        r@ == first_word_spec(s@),
{
    let ghost chars = s@;
    let n = s.unicode_len();
    let mut i: usize = 0;
    while i < n
        invariant
            i <= n,
            n == chars.len(),
            s@ == chars,
            no_space_char_before(chars, i as int),
        decreases n - i,
    {
        if s.get_char(i) == ' ' {
            let r = s.substring_char(0, i);
            proof {
                lemma_first_word_spec_prefix(chars, i as int);
            }
            return r;
        }
        i += 1;
    }
    proof {
        lemma_first_word_spec_whole(chars);
    }
    s
}

/// When the first space of `chars` stands at index `i`, the first word is
/// exactly the prefix of length `i`.
proof fn lemma_first_word_spec_prefix(chars: Seq<char>, i: int)
    requires
        0 <= i < chars.len(),
        no_space_char_before(chars, i),
        chars[i] == ' ',
    ensures
        first_word_spec(chars) == chars.subrange(0, i),
    decreases i,
{
    if i == 0 {
        assert(first_word_spec(chars) =~= chars.subrange(0, 0));
    } else {
        lemma_first_word_spec_prefix(chars.skip(1), i - 1);
        assert(chars.skip(1).subrange(0, i - 1) =~= chars.subrange(1, i));
        assert(first_word_spec(chars) =~= chars.subrange(0, i));
    }
}

/// A string without a space is its own first word.
proof fn lemma_first_word_spec_whole(chars: Seq<char>)
    requires
        no_space_char_before(chars, chars.len() as int),
    ensures
        first_word_spec(chars) == chars,
    decreases chars.len(),
{
    if chars.len() > 0 {
        lemma_first_word_spec_whole(chars.skip(1));
        assert(first_word_spec(chars) =~= chars);
    }
}

} // verus!
