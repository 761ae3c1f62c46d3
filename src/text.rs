use vstd::prelude::*;

verus! {

/// The UTF-16 code units of one character: itself below the supplementary
/// planes, a surrogate pair above.
pub open spec fn utf16_of_char(c: char) -> Seq<u16> {
    let v = c as u32 as int;
    if v < 0x10000 {
        seq![v as u16]
    } else {
        let w = v - 0x10000;
        seq![(0xD800 + w / 0x400) as u16, (0xDC00 + w % 0x400) as u16]
    }
}

/// The UTF-16 encoding of a character sequence.
pub open spec fn utf16_of(s: Seq<char>) -> Seq<u16>
    decreases s.len(),
{
    if s.len() == 0 {
        Seq::empty()
    } else {
        utf16_of(s.drop_last()) + utf16_of_char(s.last())
    }
}

/// A text with each line feed turned into a carriage return and line feed.
pub open spec fn crlf_of(s: Seq<char>) -> Seq<char>
    decreases s.len(),
{
    if s.len() == 0 {
        Seq::empty()
    } else if s.last() == '\n' {
        crlf_of(s.drop_last()) + seq!['\r', '\n']
    } else {
        crlf_of(s.drop_last()).push(s.last())
    }
}

/// Relies on `String::push`: the character is appended at the end.
#[verifier::external_body]
pub(crate) fn push_char(s: &mut String, c: char)
    ensures
        final(s)@ == old(s)@.push(c),
{
    s.push(c);
}

/// The UTF-16 code units of one character.
pub fn encode_char_utf16(c: char, out: &mut Vec<u16>)
    ensures
        final(out)@ == old(out)@ + utf16_of_char(c),
{
    let v: u32 = c as u32;
    if v < 0x10000 {
        out.push(v as u16);
    } else {
        let w: u32 = v - 0x10000;
        assert(w < 0x100000);
        out.push((0xD800 + w / 0x400) as u16);
        out.push((0xDC00 + w % 0x400) as u16);
    }
    assert(final(out)@ =~= old(out)@ + utf16_of_char(c));
}

/// The UTF-16 encoding of `s`.
pub fn encode_utf16(s: &str) -> (r: Vec<u16>)
    ensures
        r@ == utf16_of(s@),
{
    let n: usize = s.unicode_len();
    let mut out: Vec<u16> = Vec::new();
    let mut i: usize = 0;
    while i < n
        invariant
            n == s@.len(),
            i <= n,
            out@ == utf16_of(s@.subrange(0, i as int)),
        decreases n - i,
    {
        let c = s.get_char(i);
        proof {
            assert(s@.subrange(0, i + 1).drop_last() =~= s@.subrange(0, i as int));
        }
        encode_char_utf16(c, &mut out);
        i = i + 1;
    }
    assert(s@.subrange(0, n as int) =~= s@);
    out
}

/// The UTF-16 encoding of `s`, terminated by a zero unit, as the platform's
/// wide-string calls expect.
pub fn encode_wide(s: &str) -> (r: Vec<u16>)
    ensures
        r@ == utf16_of(s@).push(0),
{
    let mut out = encode_utf16(s);
    out.push(0);
    out
}

/// A copy of `s` with every line feed written as carriage return and line
/// feed, the line ending that the paste target expects.
pub fn normalize_line_endings(s: &str) -> (r: String)
    ensures
        r@ == crlf_of(s@),
{
    let n: usize = s.unicode_len();
    let mut out = String::new();
    let mut i: usize = 0;
    while i < n
        invariant
            n == s@.len(),
            i <= n,
            out@ == crlf_of(s@.subrange(0, i as int)),
        decreases n - i,
    {
        let c = s.get_char(i);
        proof {
            assert(s@.subrange(0, i + 1).drop_last() =~= s@.subrange(0, i as int));
        }
        if c == '\n' {
            push_char(&mut out, '\r');
            push_char(&mut out, '\n');
            assert(out@ =~= crlf_of(s@.subrange(0, i + 1)));
        } else {
            push_char(&mut out, c);
        }
        i = i + 1;
    }
    assert(s@.subrange(0, n as int) =~= s@);
    out
}

/// A string holding exactly the given characters.
pub fn string_of_chars(cs: &Vec<char>) -> (r: String)
    ensures
        r@ == cs@,
{
    let mut out = String::new();
    let mut i: usize = 0;
    while i < cs.len()
        invariant
            i <= cs.len(),
            out@ == cs@.subrange(0, i as int),
        decreases cs.len() - i,
    {
        push_char(&mut out, cs[i]);
        i = i + 1;
        assert(out@ =~= cs@.subrange(0, i as int));
    }
    assert(cs@.subrange(0, cs.len() as int) =~= cs@);
    out
}

/// The characters of `s`, in order.
pub fn chars_of(s: &str) -> (r: Vec<char>)
    ensures
        r@ == s@,
{
    let n: usize = s.unicode_len();
    let mut out: Vec<char> = Vec::new();
    let mut i: usize = 0;
    while i < n
        invariant
            n == s@.len(),
            i <= n,
            out@ == s@.subrange(0, i as int),
        decreases n - i,
    {
        out.push(s.get_char(i));
        i = i + 1;
        assert(out@ =~= s@.subrange(0, i as int));
    }
    assert(s@.subrange(0, n as int) =~= s@);
    out
}

/// Whether `buf` begins with `prefix`.
pub fn has_prefix(buf: &Vec<char>, prefix: &Vec<char>) -> (r: bool)
    ensures
        r == (prefix@.len() <= buf@.len() && buf@.subrange(0, prefix@.len() as int) == prefix@),
{
    if prefix.len() > buf.len() {
        return false;
    }
    let mut i: usize = 0;
    while i < prefix.len()
        invariant
            prefix.len() <= buf.len(),
            i <= prefix.len(),
            forall|j: int| 0 <= j < i ==> buf@[j] == prefix@[j],
        decreases prefix.len() - i,
    {
        if buf[i] != prefix[i] {
            assert(buf@.subrange(0, prefix@.len() as int)[i as int] != prefix@[i as int]);
            return false;
        }
        i = i + 1;
    }
    assert(buf@.subrange(0, prefix@.len() as int) =~= prefix@);
    true
}

/// Whether the characters of `buf` are exactly those of `s`.
pub fn chars_equal(buf: &Vec<char>, s: &str) -> (r: bool)
    ensures
        r == (buf@ == s@),
{
    let n: usize = s.unicode_len();
    if n != buf.len() {
        return false;
    }
    let mut i: usize = 0;
    while i < n
        invariant
            n == s@.len(),
            n == buf@.len(),
            i <= n,
            forall|j: int| 0 <= j < i ==> buf@[j] == s@[j],
        decreases n - i,
    {
        if buf[i] != s.get_char(i) {
            return false;
        }
        i = i + 1;
    }
    assert(buf@ =~= s@);
    true
}

/// Whether two character vectors hold the same characters.
pub fn same_chars(a: &Vec<char>, b: &Vec<char>) -> (r: bool)
    ensures
        r == (a@ == b@),
{
    if a.len() != b.len() {
        return false;
    }
    let mut i: usize = 0;
    while i < a.len()
        invariant
            a@.len() == b@.len(),
            i <= a@.len(),
            forall|j: int| 0 <= j < i ==> a@[j] == b@[j],
        decreases a.len() - i,
    {
        if a[i] != b[i] {
            return false;
        }
        i = i + 1;
    }
    assert(a@ =~= b@);
    true
}

} // verus!
