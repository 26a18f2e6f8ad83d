//! The demo shell of the second process: how a typed line is read as a command.
//!
//! A line that is not UTF-8 reads as empty. A line is split into words at whitespace
//! characters (Unicode's White_Space, as `char::is_whitespace` has it); numbers are read as
//! `str::parse` reads them: an optional sign, then decimal digits, within the type's range.
use vstd::prelude::*;
use crate::bytes::string_from_utf8;
use crate::flags::OpenFlags;

verus! {

/// The length in bytes of the whitespace character that starts at byte `i` of the UTF-8 text
/// `s`, or 0 when the character there is not whitespace.
pub open spec fn ws_len(s: Seq<u8>, i: int) -> int {
    let b = s[i];
    if (9 <= b && b <= 13) || b == 0x20 {
        1
    } else if b == 0xC2 && i + 1 < s.len() && (s[i + 1] == 0x85 || s[i + 1] == 0xA0) {
        2
    } else if b == 0xE1 && i + 2 < s.len() && s[i + 1] == 0x9A && s[i + 2] == 0x80 {
        3
    } else if b == 0xE2 && i + 2 < s.len() && ((s[i + 1] == 0x80 && ((0x80 <= s[i + 2] && s[i + 2] <= 0x8A)
        || s[i + 2] == 0xA8 || s[i + 2] == 0xA9 || s[i + 2] == 0xAF)) || (s[i + 1] == 0x81 && s[i + 2] == 0x9F)) {
        3
    } else if b == 0xE3 && i + 2 < s.len() && s[i + 1] == 0x80 && s[i + 2] == 0x80 {
        3
    } else {
        0
    }
}

/// The words of `s` from byte `i` on, the word begun before `i` being `cur`.
pub open spec fn words_from(s: Seq<u8>, i: int, cur: Seq<u8>) -> Seq<Seq<u8>>
    decreases s.len() - i,
{
    if i < 0 || i >= s.len() {
        if cur.len() > 0 { seq![cur] } else { Seq::empty() }
    } else if ws_len(s, i) > 0 {
        (if cur.len() > 0 { seq![cur] } else { Seq::<Seq<u8>>::empty() }) + words_from(s, i + ws_len(s, i), Seq::empty())
    } else {
        words_from(s, i + 1, cur.push(s[i]))
    }
}

/// The words of `s`: its maximal runs of bytes without whitespace.
pub open spec fn words(s: Seq<u8>) -> Seq<Seq<u8>> {
    words_from(s, 0, Seq::empty())
}

/// The length of the whitespace character at byte `i` of `s`, or 0.
fn whitespace_at(s: &[u8], i: usize) -> (r: usize)
    requires
        i < s@.len(),
    ensures
        r == ws_len(s@, i as int),
        r <= s@.len() - i,
{
    let b = s[i];
    if (9 <= b && b <= 13) || b == 0x20 {
        1
    } else if b == 0xC2 && i + 1 < s.len() && (s[i + 1] == 0x85 || s[i + 1] == 0xA0) {
        2
    } else if b == 0xE1 && 2 < s.len() - i && s[i + 1] == 0x9A && s[i + 2] == 0x80 {
        3
    } else if b == 0xE2 && 2 < s.len() - i && ((s[i + 1] == 0x80 && ((0x80 <= s[i + 2] && s[i + 2] <= 0x8A)
        || s[i + 2] == 0xA8 || s[i + 2] == 0xA9 || s[i + 2] == 0xAF)) || (s[i + 1] == 0x81 && s[i + 2] == 0x9F)) {
        3
    } else if b == 0xE3 && 2 < s.len() - i && s[i + 1] == 0x80 && s[i + 2] == 0x80 {
        3
    } else {
        0
    }
}

/// The views of a list of words.
pub open spec fn word_views(v: Seq<Vec<u8>>) -> Seq<Seq<u8>> {
    v.map_values(|w: Vec<u8>| w@)
}

/// Splits `line` into its words.
pub fn split_words(line: &[u8]) -> (r: Vec<Vec<u8>>)
    ensures
        word_views(r@) == words(line@),
{
    let mut out: Vec<Vec<u8>> = Vec::new();
    let mut cur: Vec<u8> = Vec::new();
    let mut i: usize = 0;
    assert(word_views(out@) =~= Seq::<Seq<u8>>::empty());
    assert(cur@ =~= Seq::<u8>::empty());
    while i < line.len()
        invariant
            i <= line@.len(),
            word_views(out@) + words_from(line@, i as int, cur@) == words(line@),
        decreases line@.len() - i,
    {
        let ghost before = word_views(out@);
        let k = whitespace_at(line, i);
        if k > 0 {
            let ghost rest = words_from(line@, (i + k) as int, Seq::empty());
            if cur.len() > 0 {
                let ghost c = cur@;
                out.push(cur);
                assert(word_views(out@) =~= before.push(c));
                assert(before.push(c) + rest =~= before + (seq![c] + rest));
            } else {
                assert(Seq::<Seq<u8>>::empty() + rest =~= rest);
            }
            cur = Vec::new();
            assert(cur@ =~= Seq::<u8>::empty());
            i += k;
        } else {
            cur.push(line[i]);
            i += 1;
        }
    }
    let ghost before = word_views(out@);
    if cur.len() > 0 {
        let ghost c = cur@;
        out.push(cur);
        assert(word_views(out@) =~= before.push(c));
        assert(before + seq![c] =~= before.push(c));
    } else {
        assert(before + Seq::<Seq<u8>>::empty() =~= before);
    }
    out
}

/// The value of a run of decimal digits.
pub open spec fn digits_value(s: Seq<u8>) -> int
    decreases s.len(),
{
    if s.len() == 0 { 0 } else { digits_value(s.drop_last()) * 10 + (s.last() - 0x30) }
}

/// `s` is a non-empty run of decimal digits.
pub open spec fn is_digits(s: Seq<u8>) -> bool {
    s.len() > 0 && forall|i: int| 0 <= i < s.len() ==> 0x30 <= #[trigger] s[i] <= 0x39
}

/// The word has a sign in front that the type takes: `+`, or `-` for a signed type.
pub open spec fn has_sign(s: Seq<u8>, signed: bool) -> bool {
    s.len() > 0 && (s[0] == 0x2B || (signed && s[0] == 0x2D))
}

/// The digits of a word, after the sign the type takes.
pub open spec fn digits_of(s: Seq<u8>, signed: bool) -> Seq<u8> {
    if has_sign(s, signed) { s.drop_first() } else { s }
}

/// The number a word spells, as `str::parse` reads it for an integer type whose values run
/// from `min` to `max` (signed when `min` is negative): an optional sign, then digits.
pub open spec fn parse_spec(s: Seq<u8>, min: int, max: int) -> Option<int> {
    let signed = min < 0;
    let body = digits_of(s, signed);
    if !is_digits(body) {
        None
    } else {
        let v = if has_sign(s, signed) && s[0] == 0x2D { -digits_value(body) } else { digits_value(body) };
        if min <= v && v <= max { Some(v) } else { None }
    }
}

/// The values at or above 2^64 are all out of every range read here.
pub open spec fn cap64(v: int) -> int {
    if v < 0x1_0000_0000_0000_0000 { v } else { 0x1_0000_0000_0000_0000 }
}

/// Reads a word as a sign and digits: whether the sign is `-`, and the digits' value, or 2^64
/// when it is at least that. `None` when the word is not an optional sign and digits.
fn decimal(word: &[u8], signed: bool) -> (r: Option<(bool, u128)>)
    ensures
        r is Some <==> is_digits(digits_of(word@, signed)),
        r matches Some((neg, m)) ==> neg == (has_sign(word@, signed) && word@[0] == 0x2D)
            && m == cap64(digits_value(digits_of(word@, signed))),
{
    let n = word.len();
    let sign = n > 0 && (word[0] == 0x2B || (signed && word[0] == 0x2D));
    let start: usize = if sign { 1 } else { 0 };
    let neg = sign && word[0] == 0x2D;
    let ghost body = digits_of(word@, signed);
    assert(body =~= word@.subrange(start as int, n as int));
    if start >= n {
        return None;
    }
    let mut acc: u128 = 0;
    let mut i: usize = start;
    while i < n
        invariant
            start <= i <= n,
            n == word@.len(),
            body == word@.subrange(start as int, n as int),
            body == digits_of(word@, signed),
            forall|j: int| 0 <= j < i - start ==> 0x30 <= #[trigger] body[j] <= 0x39,
            acc == cap64(digits_value(body.subrange(0, i - start))),
            acc <= 0x1_0000_0000_0000_0000,
        decreases n - i,
    {
        let b = word[i];
        if b < 0x30 || b > 0x39 {
            assert(body[i - start] == b);
            return None;
        }
        let ghost prefix = body.subrange(0, i - start);
        let ghost next = body.subrange(0, i + 1 - start);
        assert(next.drop_last() =~= prefix);
        assert(next.last() == b);
        let d = (b - 0x30) as u128;
        if acc >= 0x1_0000_0000_0000_0000 {
            assert(digits_value(next) >= 0x1_0000_0000_0000_0000) by (nonlinear_arith)
                requires digits_value(prefix) >= 0x1_0000_0000_0000_0000, digits_value(next) == digits_value(prefix) * 10 + d, d >= 0;
        } else {
            let v = acc * 10 + d;
            acc = if v >= 0x1_0000_0000_0000_0000 { 0x1_0000_0000_0000_0000 } else { v };
        }
        i += 1;
    }
    assert(body.subrange(0, n - start) =~= body);
    Some((neg, acc))
}

/// Reads a word as an `i64`.
pub fn parse_i64(word: &[u8]) -> (r: Option<i64>)
    ensures
        match parse_spec(word@, i64::MIN as int, i64::MAX as int) {
            Some(v) => r == Some(v as i64),
            None => r is None,
        },
{
    match decimal(word, true) {
        None => None,
        Some((neg, m)) => {
            if neg {
                if m <= 0x8000_0000_0000_0000 { Some((0 - (m as i128)) as i64) } else { None }
            } else if m <= 0x7FFF_FFFF_FFFF_FFFF {
                Some(m as i64)
            } else {
                None
            }
        },
    }
}

/// Reads a word as an `i32`.
pub fn parse_i32(word: &[u8]) -> (r: Option<i32>)
    ensures
        match parse_spec(word@, i32::MIN as int, i32::MAX as int) {
            Some(v) => r == Some(v as i32),
            None => r is None,
        },
{
    match decimal(word, true) {
        None => None,
        Some((neg, m)) => {
            if neg {
                if m <= 0x8000_0000 { Some((0 - (m as i64)) as i32) } else { None }
            } else if m <= 0x7FFF_FFFF {
                Some(m as i32)
            } else {
                None
            }
        },
    }
}

/// Reads a word as an `isize`.
pub fn parse_isize(word: &[u8]) -> (r: Option<isize>)
    ensures
        match parse_spec(word@, isize::MIN as int, isize::MAX as int) {
            Some(v) => r == Some(v as isize),
            None => r is None,
        },
{
    match decimal(word, true) {
        None => None,
        Some((neg, m)) => {
            if neg {
                if m <= (isize::MAX as u128) + 1 { Some((0 - (m as i128)) as isize) } else { None }
            } else if m <= isize::MAX as u128 {
                Some(m as isize)
            } else {
                None
            }
        },
    }
}

/// Reads a word as a `usize`.
pub fn parse_usize(word: &[u8]) -> (r: Option<usize>)
    ensures
        match parse_spec(word@, 0, usize::MAX as int) {
            Some(v) => r == Some(v as usize),
            None => r is None,
        },
{
    match decimal(word, false) {
        None => None,
        Some((_neg, m)) => if m <= usize::MAX as u128 { Some(m as usize) } else { None },
    }
}

/// The words joined with single spaces.
pub open spec fn join_words(ws: Seq<Seq<u8>>) -> Seq<u8>
    decreases ws.len(),
{
    if ws.len() == 0 {
        Seq::empty()
    } else if ws.len() == 1 {
        ws[0]
    } else {
        join_words(ws.drop_last()) + seq![0x20u8] + ws.last()
    }
}

/// The words of `ws` from index `from` on, joined with single spaces.
fn join_from(ws: &Vec<Vec<u8>>, from: usize) -> (r: Vec<u8>)
    requires
        from <= ws@.len(),
    ensures
        r@ == join_words(word_views(ws@).subrange(from as int, ws@.len() as int)),
{
    let ghost all = word_views(ws@);
    let mut out: Vec<u8> = Vec::new();
    let mut k: usize = from;
    assert(all.subrange(from as int, from as int) =~= Seq::<Seq<u8>>::empty());
    while k < ws.len()
        invariant
            from <= k <= ws@.len(),
            all == word_views(ws@),
            out@ == join_words(all.subrange(from as int, k as int)),
        decreases ws@.len() - k,
    {
        let ghost part = all.subrange(from as int, k as int + 1);
        assert(part.drop_last() =~= all.subrange(from as int, k as int));
        assert(part.last() == ws@[k as int]@);
        if k > from {
            out.push(0x20);
        }
        crate::bytes::push_bytes(&mut out, ws[k].as_slice());
        if k == from {
            assert(part =~= seq![ws@[k as int]@]);
            assert(out@ =~= ws@[k as int]@);
        } else {
            assert(out@ =~= join_words(all.subrange(from as int, k as int)) + seq![0x20u8] + ws@[k as int]@);
        }
        k += 1;
    }
    out
}

/// A copy of a word.
fn copy_word(w: &[u8]) -> (r: Vec<u8>)
    ensures
        r@ == w@,
{
    let mut out = Vec::new();
    crate::bytes::push_bytes(&mut out, w);
    assert(out@ =~= w@);
    out
}

/// Whether two words are the same.
fn same_word(a: &[u8], b: &[u8]) -> (r: bool)
    ensures
        r == (a@ == b@),
{
    if a.len() != b.len() {
        return false;
    }
    let mut i: usize = 0;
    while i < a.len()
        invariant
            i <= a@.len(),
            a@.len() == b@.len(),
            forall|j: int| 0 <= j < i ==> a@[j] == b@[j],
        decreases a@.len() - i,
    {
        if a[i] != b[i] {
            return false;
        }
        i += 1;
    }
    assert(a@ =~= b@);
    true
}

/// The open flags a mode word asks for: `r` reading, `w` writing a created or emptied file,
/// `a` appending to a created file, `rw` reading and writing a created file; anything else
/// reading. (`O_WRONLY | O_CREAT | O_TRUNC` is 0o1101, `O_WRONLY | O_APPEND | O_CREAT` is
/// 0o2101, `O_RDWR | O_CREAT` is 0o102.)
pub open spec fn mode_flags(mode: Seq<u8>) -> u32 {
    if mode == seq![0x72u8] {
        0
    } else if mode == seq![0x77u8] {
        0o1101
    } else if mode == seq![0x61u8] {
        0o2101
    } else if mode == seq![0x72u8, 0x77] {
        0o102
    } else {
        0
    }
}

/// The open flags of a mode word.
pub fn parse_flags(mode: &[u8]) -> (r: OpenFlags)
    ensures
        r@ == mode_flags(mode@),
{
    assert(0o1u32 | 0o100u32 | 0o1000u32 == 0o1101u32) by (bit_vector);
    assert(0o1u32 | 0o2000u32 | 0o100u32 == 0o2101u32) by (bit_vector);
    assert(0o2u32 | 0o100u32 == 0o102u32) by (bit_vector);
    let r_word = [0x72u8];
    let w_word = [0x77u8];
    let a_word = [0x61u8];
    let rw_word = [0x72u8, 0x77];
    assert(r_word@ =~= seq![0x72u8]);
    assert(w_word@ =~= seq![0x77u8]);
    assert(a_word@ =~= seq![0x61u8]);
    assert(rw_word@ =~= seq![0x72u8, 0x77]);
    if same_word(mode, &r_word) {
        OpenFlags::from_bits_retain(OpenFlags::O_RDONLY)
    } else if same_word(mode, &w_word) {
        OpenFlags::from_bits_retain(OpenFlags::O_WRONLY | OpenFlags::O_CREAT | OpenFlags::O_TRUNC)
    } else if same_word(mode, &a_word) {
        OpenFlags::from_bits_retain(OpenFlags::O_WRONLY | OpenFlags::O_APPEND | OpenFlags::O_CREAT)
    } else if same_word(mode, &rw_word) {
        OpenFlags::from_bits_retain(OpenFlags::O_RDWR | OpenFlags::O_CREAT)
    } else {
        OpenFlags::from_bits_retain(OpenFlags::O_RDONLY)
    }
}

/// A command whose arguments are too few; the shell shows how to use it.
#[derive(Debug, Clone, Copy, PartialEq, Eq, Structural)]
pub enum ShellVerb {
    Open,
    Read,
    Write,
    Seek,
    Close,
    EncOn,
    Unlock,
}

/// What a typed line asks the shell to do.
#[derive(Debug)]
pub enum ShellCommand {
    /// Nothing: an empty line, or a read of no bytes.
    Nothing,
    /// Show the commands.
    Help,
    /// Show how to use a command given too few arguments.
    Usage(ShellVerb),
    /// Open `path` with `flags`.
    Open { path: Vec<u8>, flags: OpenFlags },
    /// Read up to `len` bytes from `fd`.
    Read { fd: i64, len: usize },
    /// Write `content` to `fd`.
    Write { fd: i64, content: Vec<u8> },
    /// Move the offset of `fd`.
    Seek { fd: i64, offset: isize, whence: i32 },
    /// Close `fd`.
    Close { fd: i64 },
    /// Switch encryption on with `pin`.
    EncOn { pin: Vec<u8> },
    /// Switch encryption off.
    EncOff,
    /// Unlock the disk with `pin`.
    Unlock { pin: Vec<u8> },
    /// A command the shell does not know.
    Unknown { name: Vec<u8> },
}

/// The number a word spells within a type's range, or `default`.
pub open spec fn int_or(s: Seq<u8>, min: int, max: int, default: int) -> int {
    match parse_spec(s, min, max) {
        Some(v) => v,
        None => default,
    }
}

/// The command names.
pub open spec fn word_help() -> Seq<u8> { seq![0x68u8, 0x65, 0x6C, 0x70] }
pub open spec fn word_open() -> Seq<u8> { seq![0x6Fu8, 0x70, 0x65, 0x6E] }
pub open spec fn word_read() -> Seq<u8> { seq![0x72u8, 0x65, 0x61, 0x64] }
pub open spec fn word_write() -> Seq<u8> { seq![0x77u8, 0x72, 0x69, 0x74, 0x65] }
pub open spec fn word_seek() -> Seq<u8> { seq![0x73u8, 0x65, 0x65, 0x6B] }
pub open spec fn word_close() -> Seq<u8> { seq![0x63u8, 0x6C, 0x6F, 0x73, 0x65] }
pub open spec fn word_enc_on() -> Seq<u8> { seq![0x65u8, 0x6E, 0x63, 0x5F, 0x6F, 0x6E] }
pub open spec fn word_enc_off() -> Seq<u8> { seq![0x65u8, 0x6E, 0x63, 0x5F, 0x6F, 0x66, 0x66] }
pub open spec fn word_unlock() -> Seq<u8> { seq![0x75u8, 0x6E, 0x6C, 0x6F, 0x63, 0x6B] }

/// The command that the words `w` of a line ask for.
pub open spec fn command_is(w: Seq<Seq<u8>>, r: ShellCommand) -> bool {
    if w.len() == 0 {
        r is Nothing
    } else if w[0] == word_help() {
        r is Help
    } else if w[0] == word_open() {
        if w.len() < 3 { r == ShellCommand::Usage(ShellVerb::Open) } else {
            r matches ShellCommand::Open { path, flags } && path@ == w[1] && flags@ == mode_flags(w[2])
        }
    } else if w[0] == word_read() {
        if w.len() < 3 { r == ShellCommand::Usage(ShellVerb::Read) } else {
            let fd = int_or(w[1], i64::MIN as int, i64::MAX as int, -1);
            let len = int_or(w[2], 0, usize::MAX as int, 0);
            if len == 0 { r is Nothing } else { r matches ShellCommand::Read { fd: f, len: l } && f == fd && l == len }
        }
    } else if w[0] == word_write() {
        if w.len() < 3 { r == ShellCommand::Usage(ShellVerb::Write) } else {
            r matches ShellCommand::Write { fd, content } && fd == int_or(w[1], i64::MIN as int, i64::MAX as int, -1)
                && content@ == join_words(w.subrange(2, w.len() as int))
        }
    } else if w[0] == word_seek() {
        if w.len() < 4 { r == ShellCommand::Usage(ShellVerb::Seek) } else {
            r matches ShellCommand::Seek { fd, offset, whence } && fd == int_or(w[1], i64::MIN as int, i64::MAX as int, -1)
                && offset == int_or(w[2], isize::MIN as int, isize::MAX as int, 0)
                && whence == int_or(w[3], i32::MIN as int, i32::MAX as int, 0)
        }
    } else if w[0] == word_close() {
        if w.len() < 2 { r == ShellCommand::Usage(ShellVerb::Close) } else {
            r matches ShellCommand::Close { fd } && fd == int_or(w[1], i64::MIN as int, i64::MAX as int, -1)
        }
    } else if w[0] == word_enc_on() {
        if w.len() < 2 { r == ShellCommand::Usage(ShellVerb::EncOn) } else {
            r matches ShellCommand::EncOn { pin } && pin@ == w[1]
        }
    } else if w[0] == word_enc_off() {
        r is EncOff
    } else if w[0] == word_unlock() {
        if w.len() < 2 { r == ShellCommand::Usage(ShellVerb::Unlock) } else {
            r matches ShellCommand::Unlock { pin } && pin@ == w[1]
        }
    } else {
        r matches ShellCommand::Unknown { name } && name@ == w[0]
    }
}

/// Reads a word as an `i64`, or `default`.
fn i64_or(word: &[u8], default: i64) -> (r: i64)
    ensures
        r == int_or(word@, i64::MIN as int, i64::MAX as int, default as int),
{
    match parse_i64(word) {
        Some(v) => v,
        None => default,
    }
}

/// Reads a typed line as a command.
pub fn parse_command(line: &[u8]) -> (r: ShellCommand)
    ensures
        !vstd::utf8::valid_utf8(line@) ==> r is Nothing,
        vstd::utf8::valid_utf8(line@) ==> command_is(words(line@), r),
{
    if string_from_utf8(copy_word(line)).is_none() {
        return ShellCommand::Nothing;
    }
    let w = split_words(line);
    let ghost ws = words(line@);
    let n = w.len();
    assert(ws.len() == n);
    if n == 0 {
        return ShellCommand::Nothing;
    }
    assert(forall|k: int| 0 <= k < n ==> #[trigger] ws[k] == w@[k]@);
    let cmd = w[0].as_slice();
    if same_word(cmd, &[0x68, 0x65, 0x6C, 0x70]) {
        ShellCommand::Help
    } else if same_word(cmd, &[0x6F, 0x70, 0x65, 0x6E]) {
        if n < 3 {
            ShellCommand::Usage(ShellVerb::Open)
        } else {
            ShellCommand::Open { path: copy_word(w[1].as_slice()), flags: parse_flags(w[2].as_slice()) }
        }
    } else if same_word(cmd, &[0x72, 0x65, 0x61, 0x64]) {
        if n < 3 {
            ShellCommand::Usage(ShellVerb::Read)
        } else {
            let fd = i64_or(w[1].as_slice(), -1);
            let len = match parse_usize(w[2].as_slice()) {
                Some(v) => v,
                None => 0,
            };
            if len == 0 { ShellCommand::Nothing } else { ShellCommand::Read { fd, len } }
        }
    } else if same_word(cmd, &[0x77, 0x72, 0x69, 0x74, 0x65]) {
        if n < 3 {
            ShellCommand::Usage(ShellVerb::Write)
        } else {
            ShellCommand::Write { fd: i64_or(w[1].as_slice(), -1), content: join_from(&w, 2) }
        }
    } else if same_word(cmd, &[0x73, 0x65, 0x65, 0x6B]) {
        if n < 4 {
            ShellCommand::Usage(ShellVerb::Seek)
        } else {
            let offset = match parse_isize(w[2].as_slice()) {
                Some(v) => v,
                None => 0,
            };
            let whence = match parse_i32(w[3].as_slice()) {
                Some(v) => v,
                None => 0,
            };
            ShellCommand::Seek { fd: i64_or(w[1].as_slice(), -1), offset, whence }
        }
    } else if same_word(cmd, &[0x63, 0x6C, 0x6F, 0x73, 0x65]) {
        if n < 2 {
            ShellCommand::Usage(ShellVerb::Close)
        } else {
            ShellCommand::Close { fd: i64_or(w[1].as_slice(), -1) }
        }
    } else if same_word(cmd, &[0x65, 0x6E, 0x63, 0x5F, 0x6F, 0x6E]) {
        if n < 2 {
            ShellCommand::Usage(ShellVerb::EncOn)
        } else {
            ShellCommand::EncOn { pin: copy_word(w[1].as_slice()) }
        }
    } else if same_word(cmd, &[0x65, 0x6E, 0x63, 0x5F, 0x6F, 0x66, 0x66]) {
        ShellCommand::EncOff
    } else if same_word(cmd, &[0x75, 0x6E, 0x6C, 0x6F, 0x63, 0x6B]) {
        if n < 2 {
            ShellCommand::Usage(ShellVerb::Unlock)
        } else {
            ShellCommand::Unlock { pin: copy_word(w[1].as_slice()) }
        }
    } else {
        ShellCommand::Unknown { name: copy_word(cmd) }
    }
}

} // verus!
