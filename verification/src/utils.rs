//! Text helpers: comparing text and converting between text and UTF-16 units.
use vstd::prelude::*;

verus! {

/// Whether two texts hold the same characters.
pub fn str_equals(a: &str, b: &str) -> (equal: bool)
    ensures
        equal == (a@ == b@),
{
    let n = a.unicode_len();
    if n != b.unicode_len() {
        return false;
    }
    let mut i: usize = 0;
    while i < n
        invariant
            n == a@.len(),
            n == b@.len(),
            i <= n,
            forall|j: int| 0 <= j < i ==> a@[j] == b@[j],
        decreases n - i,
    {
        if a.get_char(i) != b.get_char(i) {
            return false;
        }
        i = i + 1;
    }
    assert(a@ =~= b@);
    true
}

} // verus!

verus! {

/// A UTF-16 unit that opens a surrogate pair.
pub open spec fn is_high_surrogate(u: u16) -> bool {
    0xD800 <= u < 0xDC00
}

/// A UTF-16 unit that closes a surrogate pair.
pub open spec fn is_low_surrogate(u: u16) -> bool {
    0xDC00 <= u < 0xE000
}

/// UTF-16 decoding in which each unpaired surrogate becomes U+FFFD.
pub open spec fn utf16_decode(units: Seq<u16>) -> Seq<char>
    decreases units.len(),
{
    if units.len() == 0 {
        Seq::empty()
    } else if units.len() >= 2 && is_high_surrogate(units[0]) && is_low_surrogate(units[1]) {
        seq![
            ((0x10000 + (units[0] - 0xD800) * 0x400 + (units[1] - 0xDC00)) as u32) as char,
        ] + utf16_decode(units.subrange(2, units.len() as int))
    } else if is_high_surrogate(units[0]) || is_low_surrogate(units[0]) {
        seq!['\u{FFFD}'] + utf16_decode(units.drop_first())
    } else {
        seq![(units[0] as u32) as char] + utf16_decode(units.drop_first())
    }
}

/// The UTF-16 units of one character.
pub open spec fn char_utf16(c: char) -> Seq<u16> {
    let v = c as u32;
    if v < 0x10000 {
        seq![v as u16]
    } else {
        seq![(0xD800 + (v - 0x10000) / 0x400) as u16, (0xDC00 + (v - 0x10000) % 0x400) as u16]
    }
}

/// UTF-16 encoding of a text.
pub open spec fn utf16_encode(text: Seq<char>) -> Seq<u16>
    decreases text.len(),
{
    if text.len() == 0 {
        Seq::empty()
    } else {
        char_utf16(text[0]) + utf16_encode(text.drop_first())
    }
}

/// `p` is the position of the first zero unit of `units`.
pub open spec fn is_first_nul(units: Seq<u16>, p: int) -> bool {
    &&& 0 <= p < units.len()
    &&& units[p] == 0
    &&& forall|j: int| 0 <= j < p ==> units[j] != 0
}

/// The text held by a zero-terminated UTF-16 buffer: the units before the first zero, decoded;
/// empty when the buffer holds no zero.
pub open spec fn wide_text(units: Seq<u16>) -> Seq<char> {
    if exists|p: int| is_first_nul(units, p) {
        utf16_decode(units.take(choose|p: int| is_first_nul(units, p)))
    } else {
        Seq::empty()
    }
}

/// `String::from_utf16_lossy`: decodes UTF-16, putting U+FFFD for each unpaired surrogate.
/// Its documentation states this decoding; the contract restates it as `utf16_decode`.
#[verifier::external_body]
fn decode_utf16_lossy(units: &[u16]) -> (text: String)
    ensures
        text@ == utf16_decode(units@),
{
    String::from_utf16_lossy(units)
}

/// Appends the UTF-16 units of `c` to `units`.
fn push_char_units(units: &mut Vec<u16>, c: char)
    ensures
        final(units)@ == old(units)@ + char_utf16(c),
{
    let v = c as u32;
    if v < 0x10000 {
        units.push(v as u16);
        assert(units@ =~= old(units)@ + char_utf16(c));
    } else {
        let w = v - 0x10000;
        units.push((0xD800 + w / 0x400) as u16);
        units.push((0xDC00 + w % 0x400) as u16);
        assert(units@ =~= old(units)@ + char_utf16(c));
    }
}

/// The UTF-16 encoding of a concatenation is the concatenation of the encodings.
proof fn lemma_encode_concat(a: Seq<char>, b: Seq<char>)
    ensures
        utf16_encode(a + b) == utf16_encode(a) + utf16_encode(b),
    decreases a.len(),
{
    if a.len() == 0 {
        assert(a + b =~= b);
        assert(utf16_encode(a) + utf16_encode(b) =~= utf16_encode(b));
    } else {
        assert((a + b).drop_first() =~= a.drop_first() + b);
        lemma_encode_concat(a.drop_first(), b);
        assert(utf16_encode(a + b) =~= utf16_encode(a) + utf16_encode(b));
    }
}

/// The UTF-16 units of a text, in order.
pub fn encode_utf16(text: &str) -> (units: Vec<u16>)
    ensures
        units@ == utf16_encode(text@),
{
    let mut units: Vec<u16> = Vec::new();
    for c in it: text.chars()
        invariant
            it.seq() == text@,
            units@ == utf16_encode(text@.take(it.index() as int)),
    {
        push_char_units(&mut units, c);
        proof {
            let s = text@;
            let i = it.index() as int;
            assert(s.take(i + 1) =~= s.take(i) + seq![c]);
            lemma_encode_concat(s.take(i), seq![c]);
            assert(seq![c].drop_first() =~= Seq::<char>::empty());
            assert(utf16_encode(Seq::<char>::empty()) == Seq::<u16>::empty());
            assert(seq![c][0] == c);
            assert(utf16_encode(seq![c]) =~= char_utf16(c));
        }
    }
    assert(text@.take(text@.len() as int) =~= text@);
    units
}

/// The text of a zero-terminated UTF-16 buffer; empty when the buffer has no terminator.
pub fn to_string_utf16(units: &[u16]) -> (text: String)
    ensures
        text@ == wide_text(units@),
{
    let n = units.len();
    let mut i: usize = 0;
    while i < n
        invariant
            n == units@.len(),
            i <= n,
            forall|j: int| 0 <= j < i ==> units@[j] != 0,
        decreases n - i,
    {
        if units[i] == 0 {
            assert(is_first_nul(units@, i as int));
            let ghost p = choose|p: int| is_first_nul(units@, p);
            assert(p == i as int);
            let prefix = &units[0..i];
            assert(prefix@ =~= units@.take(i as int));
            return decode_utf16_lossy(prefix);
        }
        i = i + 1;
    }
    assert(!exists|p: int| is_first_nul(units@, p));
    String::new()
}

} // verus!

verus! {

/// Decoding the UTF-16 units of a character gives the character.
proof fn lemma_decode_char(c: char, rest: Seq<u16>)
    ensures
        utf16_decode(char_utf16(c) + rest) == seq![c] + utf16_decode(rest),
{
    let v = c as u32;
    let s = char_utf16(c) + rest;
    if v < 0x10000 {
        assert(!(0xD800 <= v < 0xE000));
        assert(s.drop_first() =~= rest);
        assert(s[0] == v as u16);
        assert(((s[0] as u32) as char) == c);
    } else {
        let hi = (0xD800 + (v - 0x10000) / 0x400) as u16;
        let lo = (0xDC00 + (v - 0x10000) % 0x400) as u16;
        assert(v <= 0x10FFFF);
        assert(s[0] == hi && s[1] == lo);
        assert(is_high_surrogate(hi));
        assert(is_low_surrogate(lo));
        assert(s.subrange(2, s.len() as int) =~= rest);
        assert(0x10000 + (hi - 0xD800) * 0x400 + (lo - 0xDC00) == v);
    }
}

/// Decoding the UTF-16 encoding of a text gives the text back.
pub proof fn lemma_decode_encode(text: Seq<char>)
    ensures
        utf16_decode(utf16_encode(text)) == text,
    decreases text.len(),
{
    if text.len() > 0 {
        lemma_decode_encode(text.drop_first());
        lemma_decode_char(text[0], utf16_encode(text.drop_first()));
        assert(seq![text[0]] + text.drop_first() =~= text);
    }
}

} // verus!

verus! {

/// A zero-filled buffer of `size` units holding `units` at its start, cut at `size`.
pub open spec fn padded(units: Seq<u16>, size: int) -> Seq<u16> {
    Seq::new(size as nat, |k: int| if k < units.len() { units[k] } else { 0u16 })
}

/// The UTF-16 units of a character other than NUL are nonzero.
proof fn lemma_char_units_nonzero(c: char)
    requires
        (c as u32) != 0,
    ensures
        forall|k: int| 0 <= k < char_utf16(c).len() ==> char_utf16(c)[k] != 0,
{
    let v = c as u32;
    assert(v <= 0x10FFFF);
}

/// The UTF-16 units of a text without NUL characters are all nonzero.
proof fn lemma_encode_nonzero(text: Seq<char>)
    requires
        forall|k: int| 0 <= k < text.len() ==> (text[k] as u32) != 0,
    ensures
        forall|k: int| 0 <= k < utf16_encode(text).len() ==> utf16_encode(text)[k] != 0,
    decreases text.len(),
{
    if text.len() > 0 {
        let rest = text.drop_first();
        lemma_encode_nonzero(rest);
        let head = char_utf16(text[0]);
        assert(utf16_encode(text) == head + utf16_encode(rest));
        lemma_char_units_nonzero(text[0]);
    }
}

/// A text without NUL characters whose UTF-16 units fit a buffer of `size` units with room
/// for the terminator is read back from the zero-filled buffer unchanged.
pub proof fn lemma_padded_read_back(text: Seq<char>, size: int)
    requires
        utf16_encode(text).len() < size,
        forall|k: int| 0 <= k < text.len() ==> (text[k] as u32) != 0,
    ensures
        wide_text(padded(utf16_encode(text), size)) == text,
{
    let units = utf16_encode(text);
    let buffer = padded(units, size);
    let p = units.len() as int;
    lemma_encode_nonzero(text);
    assert(is_first_nul(buffer, p));
    let q = choose|q: int| is_first_nul(buffer, q);
    assert(q == p);
    assert(buffer.take(p) =~= units);
    lemma_decode_encode(text);
}

} // verus!

verus! {

/// Whether `text` starts with `prefix`.
pub fn str_starts_with(text: &str, prefix: &str) -> (starts: bool)
    ensures
        starts == prefix@.is_prefix_of(text@),
{
    let n = prefix.unicode_len();
    if n > text.unicode_len() {
        return false;
    }
    let mut i: usize = 0;
    while i < n
        invariant
            n == prefix@.len(),
            n <= text@.len(),
            i <= n,
            forall|j: int| 0 <= j < i ==> prefix@[j] == text@[j],
        decreases n - i,
    {
        if prefix.get_char(i) != text.get_char(i) {
            assert(prefix@[i as int] != text@.subrange(0, n as int)[i as int]);
            return false;
        }
        i = i + 1;
    }
    assert(prefix@ =~= text@.subrange(0, n as int));
    true
}

/// The message that ends a message loop.
pub const WM_QUIT: u32 = 0x0012;

/// What a message loop does with the outcome of waiting for a message.
#[derive(Debug, Clone, Copy, PartialEq, Eq, Structural)]
pub enum MessageLoopStep {
    /// The loop ends.
    Stop,
    /// The message goes to the listener, then is dispatched.
    Deliver,
}

/// The loop ends when no message came or the message is `WM_QUIT`; otherwise the message
/// is delivered.
pub fn message_loop_step(got_message: bool, message: u32) -> (step: MessageLoopStep)
    ensures
        step == if got_message && message != WM_QUIT {
            MessageLoopStep::Deliver
        } else {
            MessageLoopStep::Stop
        },
{
    if !got_message || message == WM_QUIT {
        MessageLoopStep::Stop
    } else {
        MessageLoopStep::Deliver
    }
}

/// A buffer of `len` zero units for the bridge to write text into; empty when `len` is not
/// positive.
pub fn zeroed_units(len: i32) -> (buffer: Vec<u16>)
    ensures
        buffer@ == Seq::new(if len < 0 { 0nat } else { len as nat }, |k: int| 0u16),
{
    let mut buffer: Vec<u16> = Vec::new();
    let mut k: i32 = 0;
    while k < len
        invariant
            0 <= k,
            k <= len || len < 0,
            k == 0 || k <= len,
            buffer@ == Seq::new(k as nat, |j: int| 0u16),
        decreases len - k,
    {
        buffer.push(0);
        k = k + 1;
        assert(buffer@ =~= Seq::new(k as nat, |j: int| 0u16));
    }
    assert(buffer@ =~= Seq::new(if len < 0 { 0nat } else { len as nat }, |j: int| 0u16));
    buffer
}

/// A buffer of `count` zero indices for the bridge to write indices into; empty when `count`
/// is not positive.
pub fn zeroed_indices(count: i32) -> (buffer: Vec<i32>)
    ensures
        buffer@ == Seq::new(if count < 0 { 0nat } else { count as nat }, |k: int| 0i32),
{
    let mut buffer: Vec<i32> = Vec::new();
    let mut k: i32 = 0;
    while k < count
        invariant
            0 <= k,
            k == 0 || k <= count,
            buffer@ == Seq::new(k as nat, |j: int| 0i32),
        decreases count - k,
    {
        buffer.push(0);
        k = k + 1;
        assert(buffer@ =~= Seq::new(k as nat, |j: int| 0i32));
    }
    assert(buffer@ =~= Seq::new(if count < 0 { 0nat } else { count as nat }, |j: int| 0i32));
    buffer
}

} // verus!
