use vstd::prelude::*;
use vstd::string::*;

verus! {

/// Whether a character is white space, as `char::is_whitespace` has it (Unicode White_Space).
pub open spec fn is_space(c: char) -> bool {
    ||| c == '\t' || c == '\n' || c == '\u{0B}' || c == '\u{0C}' || c == '\r' || c == ' '
    ||| c == '\u{85}' || c == '\u{A0}' || c == '\u{1680}'
    ||| ('\u{2000}' <= c && c <= '\u{200A}')
    ||| c == '\u{2028}' || c == '\u{2029}' || c == '\u{202F}' || c == '\u{205F}' || c == '\u{3000}'
}

fn space(c: char) -> (b: bool)
    ensures
        b == is_space(c),
{
    c == '\t' || c == '\n' || c == '\u{0B}' || c == '\u{0C}' || c == '\r' || c == ' '
        || c == '\u{85}' || c == '\u{A0}' || c == '\u{1680}'
        || ('\u{2000}' <= c && c <= '\u{200A}')
        || c == '\u{2028}' || c == '\u{2029}' || c == '\u{202F}' || c == '\u{205F}' || c == '\u{3000}'
}

/// The first position at or after `i` that does not hold white space (the length if none).
pub open spec fn skip_space(s: Seq<char>, i: int) -> int
    decreases s.len() - i,
{
    if i >= s.len() || !is_space(s[i]) {
        i
    } else {
        skip_space(s, i + 1)
    }
}

/// The first position at or after `i` that holds white space (the length if none).
pub open spec fn token_end(s: Seq<char>, i: int) -> int
    decreases s.len() - i,
{
    if i >= s.len() || is_space(s[i]) {
        i
    } else {
        token_end(s, i + 1)
    }
}

/// Skipping white space stays within the line.
pub proof fn lemma_skip_space_bounds(s: Seq<char>, i: int)
    requires
        0 <= i <= s.len(),
    ensures
        i <= skip_space(s, i) <= s.len(),
    decreases s.len() - i,
{
    if i < s.len() && is_space(s[i]) {
        lemma_skip_space_bounds(s, i + 1);
    }
}

/// A word ends within the line.
pub proof fn lemma_token_end_bounds(s: Seq<char>, i: int)
    requires
        0 <= i <= s.len(),
    ensures
        i <= token_end(s, i) <= s.len(),
    decreases s.len() - i,
{
    if i < s.len() && !is_space(s[i]) {
        lemma_token_end_bounds(s, i + 1);
    }
}

/// The words of a line from position `i` on: the runs of characters between white space.
pub open spec fn words_from(s: Seq<char>, i: int) -> Seq<Seq<char>>
    decreases s.len() - i,
{
    let start = skip_space(s, i);
    if i < 0 || start >= s.len() {
        Seq::empty()
    } else {
        let end = token_end(s, start);
        if end <= i {
            Seq::empty()
        } else {
            proof {
                lemma_skip_space_bounds(s, i);
                lemma_token_end_bounds(s, start);
            }
            seq![s.subrange(start, end)] + words_from(s, end)
        }
    }
}

/// The words of a line, read one after the other as `split_whitespace` reads them.
pub struct Words {
    line: String,
    pos: usize,
}

impl Words {
    /// The words not read yet.
    pub closed spec fn rest(self) -> Seq<Seq<char>> {
        words_from(self.line@, self.pos as int)
    }

    #[verifier::type_invariant]
    spec fn position_in_line(self) -> bool {
        self.pos <= self.line@.len()
    }

    /// The words of `line`.
    pub fn new(line: &str) -> (w: Words)
        ensures
            w.rest() == words_from(line@, 0),
    {
        Words { line: String::from_str(line), pos: 0 }
    }

    /// The next word, if any.
    pub fn next(&mut self) -> (r: Option<String>)
        ensures
            old(self).rest().len() == 0 ==> r is None && final(self).rest().len() == 0,
            old(self).rest().len() > 0 ==> (r matches Some(w) && w@ == old(self).rest()[0]
                && final(self).rest() == old(self).rest().drop_first()),
    {
        proof {
            use_type_invariant(&*self);
        }
        let ghost s = self.line@;
        let line = self.line.as_str();
        let len = line.unicode_len();
        let mut start = self.pos;
        while start < len && space(line.get_char(start))
            invariant
                self.pos <= start <= len,
                len == s.len(),
                line@ == s,
                self.line@ == s,
                skip_space(s, self.pos as int) == skip_space(s, start as int),
            decreases len - start,
        {
            start = start + 1;
        }
        proof {
            lemma_skip_space_bounds(s, start as int);
        }
        if start >= len {
            self.pos = len;
            return None;
        }
        let mut end = start;
        while end < len && !space(line.get_char(end))
            invariant
                start <= end <= len,
                len == s.len(),
                line@ == s,
                token_end(s, start as int) == token_end(s, end as int),
            decreases len - end,
        {
            end = end + 1;
        }
        let word = String::from_str(line.substring_char(start, end));
        proof {
            assert(words_from(s, self.pos as int) == seq![s.subrange(start as int, end as int)] + words_from(s, end as int));
        }
        self.pos = end;
        Some(word)
    }
}

/// The registers a debugger command can name.
#[derive(Debug, Clone, Copy, PartialEq, Eq, Structural)]
pub enum Register {
    A,
    B,
    C,
    D,
    E,
    F,
    H,
    L,
    AF,
    BC,
    DE,
    HL,
    PC,
    SP,
}

/// The flags a debugger command can name.
#[derive(Debug, Clone, Copy, PartialEq, Eq, Structural)]
pub enum Flag {
    Z,
    C,
    N,
    H,
}

/// An argument: an address (`0x...`), a register (`r...`) or a flag (`f...`).
#[derive(Debug, Clone, Copy, PartialEq, Eq, Structural)]
pub enum Argument {
    Address(u16),
    Register(Register),
    Flag(Flag),
}

#[derive(Debug, Clone)]
pub enum ParserError {
    InvalidFlag(String),
    InvalidCommand(String),
    InvalidArgument(Argument),
    UnknownArgumentType(String),
    InvalidEndOfInput,
    InvalidRegister(String),
    InvalidHexString(String),
}

/// A parser error with the text it carries.
pub enum ParserErrorView {
    InvalidFlag(Seq<char>),
    InvalidCommand(Seq<char>),
    InvalidArgument(Argument),
    UnknownArgumentType(Seq<char>),
    InvalidEndOfInput,
    InvalidRegister(Seq<char>),
    InvalidHexString(Seq<char>),
}

impl View for ParserError {
    type V = ParserErrorView;

    open spec fn view(&self) -> ParserErrorView {
        match self {
            ParserError::InvalidFlag(s) => ParserErrorView::InvalidFlag(s@),
            ParserError::InvalidCommand(s) => ParserErrorView::InvalidCommand(s@),
            ParserError::InvalidArgument(a) => ParserErrorView::InvalidArgument(*a),
            ParserError::UnknownArgumentType(s) => ParserErrorView::UnknownArgumentType(s@),
            ParserError::InvalidEndOfInput => ParserErrorView::InvalidEndOfInput,
            ParserError::InvalidRegister(s) => ParserErrorView::InvalidRegister(s@),
            ParserError::InvalidHexString(s) => ParserErrorView::InvalidHexString(s@),
        }
    }
}

pub type ParseResult<T> = Result<T, ParserError>;

/// A parse result with its error seen through the error's view.
pub open spec fn result_view<T>(r: ParseResult<T>) -> Result<T, ParserErrorView> {
    match r {
        Ok(v) => Ok(v),
        Err(e) => Err(e@),
    }
}

/// The flag a word names.
pub open spec fn flag_named(t: Seq<char>) -> Option<Flag> {
    if t.len() != 1 {
        None
    } else if t[0] == 'Z' {
        Some(Flag::Z)
    } else if t[0] == 'C' {
        Some(Flag::C)
    } else if t[0] == 'N' {
        Some(Flag::N)
    } else if t[0] == 'H' {
        Some(Flag::H)
    } else {
        None
    }
}

/// The register a word names.
pub open spec fn register_named(t: Seq<char>) -> Option<Register> {
    if t.len() == 1 {
        if t[0] == 'A' {
            Some(Register::A)
        } else if t[0] == 'B' {
            Some(Register::B)
        } else if t[0] == 'C' {
            Some(Register::C)
        } else if t[0] == 'D' {
            Some(Register::D)
        } else if t[0] == 'E' {
            Some(Register::E)
        } else if t[0] == 'F' {
            Some(Register::F)
        } else if t[0] == 'H' {
            Some(Register::H)
        } else if t[0] == 'L' {
            Some(Register::L)
        } else {
            None
        }
    } else if t.len() == 2 {
        if t[0] == 'A' && t[1] == 'F' {
            Some(Register::AF)
        } else if t[0] == 'B' && t[1] == 'C' {
            Some(Register::BC)
        } else if t[0] == 'D' && t[1] == 'E' {
            Some(Register::DE)
        } else if t[0] == 'H' && t[1] == 'L' {
            Some(Register::HL)
        } else if t[0] == 'S' && t[1] == 'P' {
            Some(Register::SP)
        } else if t[0] == 'P' && t[1] == 'C' {
            Some(Register::PC)
        } else {
            None
        }
    } else {
        None
    }
}

/// The value of a hexadecimal digit, either case.
pub open spec fn hex_digit(c: char) -> Option<int> {
    if '0' <= c && c <= '9' {
        Some(c as int - '0' as int)
    } else if 'a' <= c && c <= 'f' {
        Some(c as int - 'a' as int + 10)
    } else if 'A' <= c && c <= 'F' {
        Some(c as int - 'A' as int + 10)
    } else {
        None
    }
}

/// Every character is a hexadecimal digit.
pub open spec fn all_hex(d: Seq<char>) -> bool {
    forall|i: int| 0 <= i < d.len() ==> #[trigger] hex_digit(d[i]) is Some
}

/// The number hexadecimal digits write.
pub open spec fn hex_number(d: Seq<char>) -> int
    decreases d.len(),
{
    if d.len() == 0 {
        0
    } else {
        hex_number(d.drop_last()) * 16 + hex_digit(d.last())->0
    }
}

/// What `u16::from_str_radix(d, 16)` gives: an optional `+`, then at least one hexadecimal
/// digit, for a number that fits 16 bits.
pub open spec fn hex_value(d: Seq<char>) -> Option<u16> {
    let digits = if d.len() > 0 && d[0] == '+' { d.drop_first() } else { d };
    if digits.len() > 0 && all_hex(digits) && hex_number(digits) <= 0xFFFF {
        Some(hex_number(digits) as u16)
    } else {
        None
    }
}

/// A word starts with `0x`.
pub open spec fn has_hex_prefix(t: Seq<char>) -> bool {
    t.len() >= 2 && t[0] == '0' && t[1] == 'x'
}

/// How a word parses as a hexadecimal address.
pub open spec fn hex_result(t: Seq<char>) -> Result<u16, ParserErrorView> {
    if has_hex_prefix(t) {
        match hex_value(t.subrange(2, t.len() as int)) {
            Some(v) => Ok(v),
            None => Err(ParserErrorView::InvalidHexString(t)),
        }
    } else {
        Err(ParserErrorView::UnknownArgumentType(t))
    }
}

proof fn lemma_hex_number_nonneg(d: Seq<char>)
    requires
        all_hex(d),
    ensures
        hex_number(d) >= 0,
    decreases d.len(),
{
    if d.len() > 0 {
        assert(all_hex(d.drop_last()));
        lemma_hex_number_nonneg(d.drop_last());
        assert(hex_digit(d[d.len() - 1]) is Some);
    }
}

/// The digits of `d` from `start` on, as a number capped at 0x10000, or none when one is not
/// a hexadecimal digit.
fn capped_hex(d: &str, start: usize) -> (r: Option<u32>)
    requires
        start <= d@.len(),
    ensures
        ({
            let digits = d@.subrange(start as int, d@.len() as int);
            &&& r is Some <==> all_hex(digits)
            &&& r matches Some(v) ==> v == if hex_number(digits) <= 0xFFFF { hex_number(digits) } else { 0x10000 }
        }),
{
    let n = d.unicode_len();
    let mut i = start;
    let mut acc: u32 = 0;
    while i < n
        invariant
            start <= i <= n,
            n == d@.len(),
            all_hex(d@.subrange(start as int, i as int)),
            acc == if hex_number(d@.subrange(start as int, i as int)) <= 0xFFFF {
                hex_number(d@.subrange(start as int, i as int))
            } else {
                0x10000
            },
        decreases n - i,
    {
        let ghost prefix = d@.subrange(start as int, i as int);
        let ghost next = d@.subrange(start as int, i + 1);
        assert(next.drop_last() == prefix);
        assert(next.last() == d@[i as int]);
        let c = d.get_char(i);
        let digit: u32 = if '0' <= c && c <= '9' {
            (c as u32) - ('0' as u32)
        } else if 'a' <= c && c <= 'f' {
            (c as u32) - ('a' as u32) + 10
        } else if 'A' <= c && c <= 'F' {
            (c as u32) - ('A' as u32) + 10
        } else {
            assert(!all_hex(d@.subrange(start as int, n as int))) by {
                assert(d@.subrange(start as int, n as int)[i - start] == c);
                assert(hex_digit(d@.subrange(start as int, n as int)[i - start]) is None);
            }
            return None;
        };
        proof {
            lemma_hex_number_nonneg(prefix);
            assert(all_hex(next)) by {
                assert forall|k: int| 0 <= k < next.len() implies #[trigger] hex_digit(next[k]) is Some by {
                    if k < prefix.len() {
                        assert(next[k] == prefix[k]);
                    }
                }
            }
        }
        if acc > 0xFFFF {
            assert(hex_number(next) > 0xFFFF) by (nonlinear_arith)
                requires
                    hex_number(prefix) > 0xFFFF,
                    hex_number(next) == hex_number(prefix) * 16 + digit,
                    digit < 16,
            ;
        } else {
            let v = acc * 16 + digit;
            acc = if v > 0xFFFF { 0x10000 } else { v };
        }
        i = i + 1;
    }
    assert(d@.subrange(start as int, n as int) == d@.subrange(start as int, i as int));
    Some(acc)
}

/// The value of the hexadecimal number after `0x`, as `u16::from_str_radix` reads it.
fn hex_after_prefix(t: &str) -> (r: Option<u16>)
    requires
        has_hex_prefix(t@),
    ensures
        r == hex_value(t@.subrange(2, t@.len() as int)),
{
    let n = t.unicode_len();
    let ghost d = t@.subrange(2, n as int);
    let start: usize = if n > 2 && t.get_char(2) == '+' { 3 } else { 2 };
    let ghost digits = t@.subrange(start as int, n as int);
    assert(digits == if d.len() > 0 && d[0] == '+' { d.drop_first() } else { d });
    if start >= n {
        return None;
    }
    match capped_hex(t, start) {
        Some(v) => if v <= 0xFFFF { Some(v as u16) } else { None },
        None => None,
    }
}

pub open spec fn flag_result(t: Seq<char>) -> Result<Flag, ParserErrorView> {
    match flag_named(t) {
        Some(f) => Ok(f),
        None => Err(ParserErrorView::InvalidFlag(t)),
    }
}

pub open spec fn register_result(t: Seq<char>) -> Result<Register, ParserErrorView> {
    match register_named(t) {
        Some(r) => Ok(r),
        None => Err(ParserErrorView::InvalidRegister(t)),
    }
}

fn parse_hex(input: &str) -> (r: ParseResult<u16>)
    ensures
        result_view(r) == hex_result(input@),
{
    let n = input.unicode_len();
    if n >= 2 && input.get_char(0) == '0' && input.get_char(1) == 'x' {
        match hex_after_prefix(input) {
            Some(v) => Ok(v),
            None => Err(ParserError::InvalidHexString(String::from_str(input))),
        }
    } else {
        Err(ParserError::UnknownArgumentType(String::from_str(input)))
    }
}

fn parse_flag(input: &str) -> (r: ParseResult<Flag>)
    ensures
        result_view(r) == flag_result(input@),
{
    if input.unicode_len() == 1 {
        let c = input.get_char(0);
        if c == 'Z' {
            return Ok(Flag::Z);
        } else if c == 'C' {
            return Ok(Flag::C);
        } else if c == 'N' {
            return Ok(Flag::N);
        } else if c == 'H' {
            return Ok(Flag::H);
        }
    }
    Err(ParserError::InvalidFlag(String::from_str(input)))
}

fn parse_register(input: &str) -> (r: ParseResult<Register>)
    ensures
        result_view(r) == register_result(input@),
{
    let n = input.unicode_len();
    if n == 1 {
        let c = input.get_char(0);
        if c == 'A' {
            return Ok(Register::A);
        } else if c == 'B' {
            return Ok(Register::B);
        } else if c == 'C' {
            return Ok(Register::C);
        } else if c == 'D' {
            return Ok(Register::D);
        } else if c == 'E' {
            return Ok(Register::E);
        } else if c == 'F' {
            return Ok(Register::F);
        } else if c == 'H' {
            return Ok(Register::H);
        } else if c == 'L' {
            return Ok(Register::L);
        }
    } else if n == 2 {
        let c0 = input.get_char(0);
        let c1 = input.get_char(1);
        if c0 == 'A' && c1 == 'F' {
            return Ok(Register::AF);
        } else if c0 == 'B' && c1 == 'C' {
            return Ok(Register::BC);
        } else if c0 == 'D' && c1 == 'E' {
            return Ok(Register::DE);
        } else if c0 == 'H' && c1 == 'L' {
            return Ok(Register::HL);
        } else if c0 == 'S' && c1 == 'P' {
            return Ok(Register::SP);
        } else if c0 == 'P' && c1 == 'C' {
            return Ok(Register::PC);
        }
    }
    Err(ParserError::InvalidRegister(String::from_str(input)))
}

/// How a word parses as an argument: `f` and a flag, `r` and a register, or `0x` and an
/// address.
pub open spec fn argument_result(t: Seq<char>) -> Result<Argument, ParserErrorView> {
    if t.len() >= 1 && t[0] == 'f' {
        match flag_result(t.subrange(1, t.len() as int)) {
            Ok(f) => Ok(Argument::Flag(f)),
            Err(e) => Err(e),
        }
    } else if t.len() >= 1 && t[0] == 'r' {
        match register_result(t.subrange(1, t.len() as int)) {
            Ok(r) => Ok(Argument::Register(r)),
            Err(e) => Err(e),
        }
    } else if has_hex_prefix(t) {
        match hex_value(t.subrange(2, t.len() as int)) {
            Some(a) => Ok(Argument::Address(a)),
            None => Err(ParserErrorView::InvalidHexString(t)),
        }
    } else {
        Err(ParserErrorView::UnknownArgumentType(t))
    }
}

/// How the next word parses with `parse`: the end of input when there is none.
pub open spec fn next_result<T>(words: Seq<Seq<char>>, parse: spec_fn(Seq<char>) -> Result<T, ParserErrorView>) -> Result<T, ParserErrorView> {
    if words.len() == 0 {
        Err(ParserErrorView::InvalidEndOfInput)
    } else {
        parse(words[0])
    }
}

/// The next word, or the end of input.
fn next_word(stream: &mut Words) -> (r: ParseResult<String>)
    ensures
        old(stream).rest().len() == 0 ==> r is Err && r->Err_0@ == ParserErrorView::InvalidEndOfInput
            && final(stream).rest().len() == 0,
        old(stream).rest().len() > 0 ==> (r matches Ok(w) && w@ == old(stream).rest()[0]
            && final(stream).rest() == old(stream).rest().drop_first()),
{
    match stream.next() {
        Some(w) => Ok(w),
        None => Err(ParserError::InvalidEndOfInput),
    }
}

fn parse_argument(stream: &mut Words) -> (r: ParseResult<Argument>)
    ensures
        result_view(r) == next_result(old(stream).rest(), |t: Seq<char>| argument_result(t)),
        final(stream).rest() == old(stream).rest().skip(if old(stream).rest().len() > 0 { 1int } else { 0 }),
{
    let input = match next_word(stream) {
        Ok(w) => w,
        Err(e) => {
            assert(old(stream).rest().skip(0) == old(stream).rest());
            return Err(e);
        },
    };
    let s = input.as_str();
    let n = s.unicode_len();
    if n >= 1 && s.get_char(0) == 'f' {
        match parse_flag(s.substring_char(1, n)) {
            Ok(flag) => Ok(Argument::Flag(flag)),
            Err(e) => Err(e),
        }
    } else if n >= 1 && s.get_char(0) == 'r' {
        match parse_register(s.substring_char(1, n)) {
            Ok(register) => Ok(Argument::Register(register)),
            Err(e) => Err(e),
        }
    } else if n >= 2 && s.get_char(0) == '0' && s.get_char(1) == 'x' {
        match hex_after_prefix(s) {
            Some(address) => Ok(Argument::Address(address)),
            None => Err(ParserError::InvalidHexString(input)),
        }
    } else {
        Err(ParserError::UnknownArgumentType(input))
    }
}

/// How `count` words parse as arguments: the arguments, or the first error.
pub open spec fn arguments_result(words: Seq<Seq<char>>, count: nat) -> Result<Seq<Argument>, ParserErrorView>
    decreases count,
{
    if count == 0 {
        Ok(Seq::empty())
    } else {
        match next_result(words, |t: Seq<char>| argument_result(t)) {
            Ok(a) => match arguments_result(words.drop_first(), (count - 1) as nat) {
                Ok(rest) => Ok(seq![a] + rest),
                Err(e) => Err(e),
            },
            Err(e) => Err(e),
        }
    }
}

pub open spec fn arguments_view(r: ParseResult<Vec<Argument>>) -> Result<Seq<Argument>, ParserErrorView> {
    match r {
        Ok(v) => Ok(v@),
        Err(e) => Err(e@),
    }
}

/// How many words reading `count` arguments takes: it stops after the first word that is no
/// argument, or when the words run out.
pub open spec fn arguments_read(words: Seq<Seq<char>>, count: nat) -> nat
    decreases count,
{
    if count == 0 || words.len() == 0 {
        0
    } else if argument_result(words[0]) is Err {
        1
    } else {
        1 + arguments_read(words.drop_first(), (count - 1) as nat)
    }
}

fn parse_arguments(input: &mut Words, count: u8) -> (r: ParseResult<Vec<Argument>>)
    ensures
        arguments_view(r) == arguments_result(old(input).rest(), count as nat),
        final(input).rest() == old(input).rest().skip(arguments_read(old(input).rest(), count as nat) as int),
        r is Ok ==> final(input).rest() == old(input).rest().skip(count as int),
{
    let mut output: Vec<Argument> = Vec::new();
    let ghost words = old(input).rest();
    assert(words.skip(0) == words);

    let mut i: u8 = 0;
    while i < count
        invariant
            i <= count,
            words == old(input).rest(),
            output@.len() == i,
            i <= words.len(),
            input.rest() == words.skip(i as int),
            arguments_read(words, count as nat) == i + arguments_read(words.skip(i as int), (count - i) as nat),
            arguments_result(words, count as nat) == match arguments_result(words.skip(i as int), (count - i) as nat) {
                Ok(rest) => Ok(output@ + rest),
                Err(e) => Err(e),
            },
        decreases count - i,
    {
        let ghost before = input.rest();
        assert(before.len() > 0 ==> before.drop_first() == words.skip(i + 1));
        match parse_argument(input) {
            Ok(a) => {
                let ghost prev = output@;
                output.push(a);
                proof {
                    assert(before.skip(1) == before.drop_first());
                    assert(arguments_read(before, (count - i) as nat)
                        == 1 + arguments_read(before.drop_first(), (count - i - 1) as nat));
                    assert(output@ + arguments_result(words.skip(i + 1), (count - i - 1) as nat)->Ok_0
                        == prev + (seq![a] + arguments_result(words.skip(i + 1), (count - i - 1) as nat)->Ok_0));
                }
            },
            Err(e) => {
                assert(arguments_result(before, (count - i) as nat) == Err::<Seq<Argument>, ParserErrorView>(e@));
                proof {
                    if before.len() > 0 {
                        assert(words.skip(i as int).skip(1) == words.skip(i + 1));
                    }
                }
                assert(words.skip(i as int).skip(0) == words.skip(i as int));
                return Err(e);
            },
        }
        i = i + 1;
    }
    assert(output@ + Seq::<Argument>::empty() == output@);
    Ok(output)
}

/// How the next word parses as an address argument.
pub open spec fn address_result(words: Seq<Seq<char>>) -> Result<Argument, ParserErrorView> {
    match arguments_result(words, 1) {
        Ok(args) => match args[0] {
            Argument::Address(_) => Ok(args[0]),
            _ => Err(ParserErrorView::InvalidArgument(args[0])),
        },
        Err(e) => Err(e),
    }
}

fn parse_address(input: &mut Words) -> (r: ParseResult<Argument>)
    ensures
        result_view(r) == address_result(old(input).rest()),
        final(input).rest() == after_one(old(input).rest()),
{
    let ghost words = old(input).rest();
    assert(words.len() > 0 ==> arguments_read(words.drop_first(), 0) == 0);
    assert(words.len() > 0 ==> arguments_read(words, 1) == 1);
    assert(words.skip(0) == words);
    assert(words.len() > 0 ==> words.skip(1) == words.drop_first());
    let args = match parse_arguments(input, 1) {
        Ok(args) => args,
        Err(e) => return Err(e),
    };
    let a = args[0];

    match a {
        Argument::Address(_) => Ok(a),
        _ => Err(ParserError::InvalidArgument(a)),
    }
}

/// The break points after one is set at `pc`: it is added at the end unless it is there.
pub open spec fn added(points: Seq<u16>, pc: u16) -> Seq<u16> {
    if points.contains(pc) {
        points
    } else {
        points.push(pc)
    }
}

/// The break points after those at `pc` are removed, the others keeping their order.
pub open spec fn removed(points: Seq<u16>, pc: u16) -> Seq<u16> {
    points.filter(other_than(pc))
}

/// Whether a break point is at another address than `pc`.
pub open spec fn other_than(pc: u16) -> spec_fn(u16) -> bool {
    |e: u16| e != pc
}

/// After a break point is set at `pc`, there is one there.
pub proof fn lemma_set_break_present(points: Seq<u16>, pc: u16)
    ensures
        added(points, pc).contains(pc),
{
    if !points.contains(pc) {
        assert(points.push(pc)[points.len() as int] == pc);
    }
}

/// Setting the same break point twice is the same as setting it once.
pub proof fn lemma_set_break_idempotent(points: Seq<u16>, pc: u16)
    ensures
        added(added(points, pc), pc) == added(points, pc),
{
    lemma_set_break_present(points, pc);
}

/// After the break points at `pc` are deleted, there is none there, and every other
/// break point is still set.
pub proof fn lemma_delete_absent(points: Seq<u16>, pc: u16, other: u16)
    requires
        other != pc,
    ensures
        !removed(points, pc).contains(pc),
        removed(points, pc).contains(other) == points.contains(other),
{
    let f = other_than(pc);
    if removed(points, pc).contains(pc) {
        let i = choose|i: int| 0 <= i < points.filter(f).len() && points.filter(f)[i] == pc;
        points.lemma_filter_pred(f, i);
    }
    if points.contains(other) {
        let i = choose|i: int| 0 <= i < points.len() && points[i] == other;
        points.lemma_filter_contains(f, i);
    }
    if removed(points, pc).contains(other) {
        points.lemma_filter_contains_rev(f, other);
    }
}

/// Setting a break point never lists an address twice.
pub proof fn lemma_set_break_no_duplicates(points: Seq<u16>, pc: u16)
    requires
        points.no_duplicates(),
    ensures
        added(points, pc).no_duplicates(),
{
}

/// Deleting break points never lists an address twice.
pub proof fn lemma_delete_no_duplicates(points: Seq<u16>, pc: u16)
    requires
        points.no_duplicates(),
    ensures
        removed(points, pc).no_duplicates(),
    decreases points.len(),
{
    reveal(Seq::filter);
    if points.len() > 0 {
        let rest = points.drop_last();
        let last = points.last();
        assert(rest.no_duplicates());
        lemma_delete_no_duplicates(rest, pc);
        if rest.filter(other_than(pc)).contains(last) {
            rest.lemma_filter_contains_rev(other_than(pc), last);
            let j = choose|j: int| 0 <= j < rest.len() && rest[j] == last;
            assert(points[j] == points[points.len() - 1]);
        }
    }
}

/// The break points of the debugger.
pub struct Debugger {
    break_points: Vec<u16>,
}

impl View for Debugger {
    type V = Seq<u16>;

    closed spec fn view(&self) -> Seq<u16> {
        self.break_points@
    }
}

#[derive(Debug)]
pub struct Registers {
    pub af: u16,
}

#[derive(Debug)]
pub enum Output {
    Void,
    Error(String),
}

impl Debugger {
    pub fn new() -> (d: Debugger)
        ensures
            d@ == Seq::<u16>::empty(),
    {
        Debugger { break_points: Vec::new() }
    }

    pub fn list(&self) -> (o: Output)
        ensures
            o is Void,
    {
        Output::Void
    }

    pub fn run(&self) -> (o: Output)
        ensures
            o is Void,
    {
        Output::Void
    }

    pub fn step(&self) -> (o: Output)
        ensures
            o is Void,
    {
        Output::Void
    }

    pub fn next(&self) -> (o: Output)
        ensures
            o is Void,
    {
        Output::Void
    }

    pub fn finish(&self) -> (o: Output)
        ensures
            o is Void,
    {
        Output::Void
    }

    /// Removes every break point at `pc`.
    pub fn delete(&mut self, pc: u16) -> (o: Output)
        ensures
            final(self)@ == removed(old(self)@, pc),
            o is Void,
    {
        self.break_points = without(&self.break_points, pc);
        Output::Void
    }

    /// Adds a break point at `pc` unless there is one.
    fn set_break(&mut self, pc: u16) -> (o: Output)
        ensures
            final(self)@ == added(old(self)@, pc),
            o is Void,
    {
        if !contains(&self.break_points, pc) {
            self.break_points.push(pc);
        }

        Output::Void
    }
}

/// Whether `v` holds `x`.
pub fn contains(v: &Vec<u16>, x: u16) -> (b: bool)
    ensures
        b == v@.contains(x),
{
    let mut i: usize = 0;
    while i < v.len()
        invariant
            i <= v.len(),
            forall|j: int| 0 <= j < i ==> v@[j] != x,
        decreases v.len() - i,
    {
        if v[i] == x {
            return true;
        }
        i = i + 1;
    }
    false
}

/// `v` without the elements equal to `x`, in order.
pub fn without(v: &Vec<u16>, x: u16) -> (r: Vec<u16>)
    ensures
        r@ == removed(v@, x),
{
    let mut r: Vec<u16> = Vec::new();
    let mut i: usize = 0;
    while i < v.len()
        invariant
            i <= v.len(),
            r@ == removed(v@.subrange(0, i as int), x),
        decreases v.len() - i,
    {
        proof {
            assert(v@.subrange(0, i + 1).drop_last() == v@.subrange(0, i as int));
            v@.subrange(0, i as int).lemma_filter_push(v@[i as int], other_than(x));
            assert(v@.subrange(0, i + 1) == v@.subrange(0, i as int).push(v@[i as int]));
        }
        if v[i] != x {
            r.push(v[i]);
        }
        i = i + 1;
    }
    assert(v@.subrange(0, i as int) == v@);
    r
}


/// Whether two words are the same.
fn same_word(a: &str, b: &str) -> (r: bool)
    ensures
        r == (a@ == b@),
{
    let n = a.unicode_len();
    if n != b.unicode_len() {
        return false;
    }
    let mut i: usize = 0;
    while i < n
        invariant
            i <= n,
            n == a@.len(),
            n == b@.len(),
            forall|j: int| 0 <= j < i ==> a@[j] == b@[j],
        decreases n - i,
    {
        if a.get_char(i) != b.get_char(i) {
            return false;
        }
        i = i + 1;
    }
    assert(a@ =~= b@);
    true
}

/// How the next word parses as the address of a break point.
pub open spec fn point_result(words: Seq<Seq<char>>) -> Result<u16, ParserErrorView> {
    next_result(words, |t: Seq<char>| hex_result(t))
}

/// The words left after one is read, if there is one.
pub open spec fn after_one(words: Seq<Seq<char>>) -> Seq<Seq<char>> {
    if words.len() > 0 {
        words.drop_first()
    } else {
        words
    }
}

/// The address of a break point, from the next word.
fn parse_point(stream: &mut Words) -> (r: ParseResult<u16>)
    ensures
        result_view(r) == point_result(old(stream).rest()),
        final(stream).rest() == after_one(old(stream).rest()),
{
    let input = next_word(stream)?;
    parse_hex(input.as_str())
}

/// Sets a break point.
#[derive(Debug, Clone, Copy, PartialEq, Eq, Structural)]
pub struct Break {
    pub point: u16,
}

impl Break {
    pub fn new(stream: &mut Words) -> (r: ParseResult<Break>)
        ensures
            result_view(r) == match point_result(old(stream).rest()) {
                Ok(p) => Ok(Break { point: p }),
                Err(e) => Err(e),
            },
            final(stream).rest() == after_one(old(stream).rest()),
    {
        let point = parse_point(stream)?;
        Ok(Break { point })
    }
}

/// Removes a break point.
#[derive(Debug, Clone, Copy, PartialEq, Eq, Structural)]
pub struct Delete {
    pub point: u16,
}

impl Delete {
    pub fn new(stream: &mut Words) -> (r: ParseResult<Delete>)
        ensures
            result_view(r) == match point_result(old(stream).rest()) {
                Ok(p) => Ok(Delete { point: p }),
                Err(e) => Err(e),
            },
            final(stream).rest() == after_one(old(stream).rest()),
    {
        let point = parse_point(stream)?;
        Ok(Delete { point })
    }
}

/// Lists the break points.
#[derive(Debug, Clone, Copy, PartialEq, Eq, Structural)]
pub struct List {}

impl List {
    pub fn new(stream: &mut Words) -> (r: ParseResult<List>)
        ensures
            r == Ok::<List, ParserError>(List {}),
            final(stream).rest() == old(stream).rest(),
    {
        Ok(List {})
    }
}

/// Prints a register, a flag or an address.
#[derive(Debug, Clone, Copy, PartialEq, Eq, Structural)]
pub struct Print {}

impl Print {
    /// The text for an argument; nothing is printed yet.
    fn print_reference(&self, arg: Argument) -> (o: Output)
        ensures
            o is Void,
    {
        match arg {
            Argument::Register(r) => self.print_register(r),
            Argument::Flag(r) => self.print_flag(r),
            Argument::Address(r) => self.print_address(r),
        };
        Output::Void
    }

    pub fn print_register(&self, r: Register) -> (s: String)
        ensures
            s@ == if r == Register::AF { "AF"@ } else { "??"@ },
    {
        match r {
            Register::AF => String::from_str("AF"),
            _ => String::from_str("??"),
        }
    }

    pub fn print_flag(&self, f: Flag) -> (s: String)
        ensures
            s@ == if f == Flag::Z { "fZ"@ } else { "f?"@ },
    {
        match f {
            Flag::Z => String::from_str("fZ"),
            _ => String::from_str("f?"),
        }
    }

    pub fn print_address(&self, a: u16) -> (s: String)
        ensures
            s@ == "f?"@,
    {
        String::from_str("f?")
    }

    /// A print command is read as a list command.
    pub fn new(stream: &mut Words) -> (r: ParseResult<List>)
        ensures
            r == Ok::<List, ParserError>(List {}),
            final(stream).rest() == old(stream).rest(),
    {
        Ok(List {})
    }
}

/// Steps over a call.
#[derive(Debug, Clone, Copy, PartialEq, Eq, Structural)]
pub struct Next {}

impl Next {
    /// A next command is read as a list command.
    pub fn new(stream: &mut Words) -> (r: ParseResult<List>)
        ensures
            r == Ok::<List, ParserError>(List {}),
            final(stream).rest() == old(stream).rest(),
    {
        Ok(List {})
    }
}

/// Runs one instruction.
#[derive(Debug, Clone, Copy, PartialEq, Eq, Structural)]
pub struct Step {}

impl Step {
    pub fn new(stream: &mut Words) -> (r: ParseResult<Step>)
        ensures
            r == Ok::<Step, ParserError>(Step {}),
            final(stream).rest() == old(stream).rest(),
    {
        Ok(Step {})
    }
}

/// Runs to the next break point.
#[derive(Debug, Clone, Copy, PartialEq, Eq, Structural)]
pub struct Run {}

impl Run {
    pub fn new(stream: &mut Words) -> (r: ParseResult<Run>)
        ensures
            r == Ok::<Run, ParserError>(Run {}),
            final(stream).rest() == old(stream).rest(),
    {
        Ok(Run {})
    }
}

/// Runs to the end of the current function.
#[derive(Debug, Clone, Copy, PartialEq, Eq, Structural)]
pub struct Finish {}

impl Finish {
    pub fn new(stream: &mut Words) -> (r: ParseResult<Finish>)
        ensures
            r == Ok::<Finish, ParserError>(Finish {}),
            final(stream).rest() == old(stream).rest(),
    {
        Ok(Finish {})
    }
}

/// A command that the debugger carries out.
pub trait CommandT {
    /// Carries the command out; no command fails.
    fn eval(&self, d: &mut Debugger) -> (r: ParseResult<Output>)
        ensures
            r matches Ok(Output::Void),
    ;
}

impl CommandT for Break {
    fn eval(&self, d: &mut Debugger) -> (r: ParseResult<Output>)
        ensures
            final(d)@ == added(old(d)@, self.point),
    {
        d.set_break(self.point);
        Ok(Output::Void)
    }
}

impl CommandT for Delete {
    fn eval(&self, d: &mut Debugger) -> (r: ParseResult<Output>)
        ensures
            final(d)@ == removed(old(d)@, self.point),
    {
        d.delete(self.point);
        Ok(Output::Void)
    }
}

impl CommandT for List {
    fn eval(&self, d: &mut Debugger) -> (r: ParseResult<Output>)
        ensures
            final(d)@ == old(d)@,
    {
        Ok(Output::Void)
    }
}

impl CommandT for Print {
    fn eval(&self, d: &mut Debugger) -> (r: ParseResult<Output>)
        ensures
            final(d)@ == old(d)@,
    {
        Ok(Output::Void)
    }
}

impl CommandT for Next {
    fn eval(&self, d: &mut Debugger) -> (r: ParseResult<Output>)
        ensures
            final(d)@ == old(d)@,
    {
        Ok(Output::Void)
    }
}

impl CommandT for Step {
    fn eval(&self, d: &mut Debugger) -> (r: ParseResult<Output>)
        ensures
            final(d)@ == old(d)@,
    {
        Ok(Output::Void)
    }
}

impl CommandT for Run {
    fn eval(&self, d: &mut Debugger) -> (r: ParseResult<Output>)
        ensures
            final(d)@ == old(d)@,
    {
        Ok(Output::Void)
    }
}

impl CommandT for Finish {
    fn eval(&self, d: &mut Debugger) -> (r: ParseResult<Output>)
        ensures
            final(d)@ == old(d)@,
    {
        Ok(Output::Void)
    }
}

/// A parsed command.
#[derive(Debug, Clone, Copy, PartialEq, Eq, Structural)]
pub enum Command {
    Break(Break),
    Delete(Delete),
    List(List),
    Run(Run),
    Step(Step),
    Finish(Finish),
}

impl Command {
    /// The break points after the command is carried out on `points`.
    pub open spec fn effect(self, points: Seq<u16>) -> Seq<u16> {
        match self {
            Command::Break(b) => added(points, b.point),
            Command::Delete(x) => removed(points, x.point),
            _ => points,
        }
    }

    /// Carries the command out.
    pub fn eval(&self, d: &mut Debugger) -> (r: ParseResult<Output>)
        ensures
            r matches Ok(Output::Void),
            final(d)@ == self.effect(old(d)@),
    {
        match self {
            Command::Break(c) => c.eval(d),
            Command::Delete(c) => c.eval(d),
            Command::List(c) => c.eval(d),
            Command::Run(c) => c.eval(d),
            Command::Step(c) => c.eval(d),
            Command::Finish(c) => c.eval(d),
        }
    }
}

/// How a line's words parse as a command: its name, then, for a break or a delete, an
/// address. Print and next are read as list.
pub open spec fn command_result(words: Seq<Seq<char>>) -> Result<Command, ParserErrorView> {
    if words.len() == 0 {
        Err(ParserErrorView::InvalidEndOfInput)
    } else {
        let w = words[0];
        let rest = words.drop_first();
        if w == "b"@ || w == "break"@ {
            match point_result(rest) {
                Ok(p) => Ok(Command::Break(Break { point: p })),
                Err(e) => Err(e),
            }
        } else if w == "d"@ || w == "delete"@ {
            match point_result(rest) {
                Ok(p) => Ok(Command::Delete(Delete { point: p })),
                Err(e) => Err(e),
            }
        } else if w == "p"@ || w == "print"@ || w == "l"@ || w == "list"@ || w == "n"@ || w == "next"@ {
            Ok(Command::List(List {}))
        } else if w == "r"@ || w == "run"@ {
            Ok(Command::Run(Run {}))
        } else if w == "s"@ || w == "step"@ {
            Ok(Command::Step(Step {}))
        } else if w == "f"@ || w == "finish"@ {
            Ok(Command::Finish(Finish {}))
        } else {
            Err(ParserErrorView::InvalidCommand(w))
        }
    }
}

/// The words left after a command is read: its name, and the address of a break or a
/// delete command, are taken.
pub open spec fn command_rest(words: Seq<Seq<char>>) -> Seq<Seq<char>> {
    if words.len() == 0 {
        words
    } else {
        let w = words[0];
        let rest = words.drop_first();
        if w == "b"@ || w == "break"@ || w == "d"@ || w == "delete"@ {
            after_one(rest)
        } else {
            rest
        }
    }
}

/// Reads a command from the words of a line.
pub fn parse_command(stream: &mut Words) -> (r: ParseResult<Command>)
    ensures
        result_view(r) == command_result(old(stream).rest()),
        final(stream).rest() == command_rest(old(stream).rest()),
{
    let word = next_word(stream)?;
    let input = word.as_str();
    if same_word(input, "b") || same_word(input, "break") {
        Ok(Command::Break(Break::new(stream)?))
    } else if same_word(input, "d") || same_word(input, "delete") {
        Ok(Command::Delete(Delete::new(stream)?))
    } else if same_word(input, "p") || same_word(input, "print") {
        Ok(Command::List(Print::new(stream)?))
    } else if same_word(input, "l") || same_word(input, "list") {
        Ok(Command::List(List::new(stream)?))
    } else if same_word(input, "n") || same_word(input, "next") {
        Ok(Command::List(Next::new(stream)?))
    } else if same_word(input, "r") || same_word(input, "run") {
        Ok(Command::Run(Run::new(stream)?))
    } else if same_word(input, "s") || same_word(input, "step") {
        Ok(Command::Step(Step::new(stream)?))
    } else if same_word(input, "f") || same_word(input, "finish") {
        Ok(Command::Finish(Finish::new(stream)?))
    } else {
        Err(ParserError::InvalidCommand(word))
    }
}

/// The prompt the debugger shows before each command.
pub fn prompt() -> (s: String)
    ensures
        s@ == "> "@,
{
    String::from_str("> ")
}

}
