//! The pointer's position, as the platform's tools report it.

use vstd::prelude::*;
use vstd::slice::slice_subrange;
use vstd::utf8::*;

use crate::text::{char_vec, decimal, digits_value, is_digit, lemma_decimal, signed_decimal};

verus! {

/// What stops a text from being an `i32`.
#[derive(Clone, Copy, Debug, PartialEq, Eq, Structural)]
pub enum IntFault {
    Empty,
    InvalidDigit,
    TooLarge,
    TooSmall,
}

/// How many digits a text begins with.
pub open spec fn digit_run(s: Seq<char>) -> nat
    decreases s.len(),
{
    if s.len() > 0 && is_digit(s[0]) {
        1 + digit_run(s.drop_first())
    } else {
        0
    }
}

/// A text read as a decimal `i32`: an optional sign, then digits and nothing
/// else. Where the digits already leave the range, that is the fault, whatever
/// follows them.
pub open spec fn parsed_i32(s: Seq<char>) -> Result<i32, IntFault> {
    if s.len() == 0 {
        Err(IntFault::Empty)
    } else {
        let body = if s[0] == '-' || s[0] == '+' {
            s.drop_first()
        } else {
            s
        };
        let run = body.take(digit_run(body) as int);
        let value = if s[0] == '-' {
            -digits_value(run)
        } else {
            digits_value(run)
        };
        if value > i32::MAX {
            Err(IntFault::TooLarge)
        } else if value < i32::MIN {
            Err(IntFault::TooSmall)
        } else if run.len() == 0 || run.len() < body.len() {
            Err(IntFault::InvalidDigit)
        } else {
            Ok(value as i32)
        }
    }
}

proof fn lemma_digit_run(s: Seq<char>)
    ensures
        digit_run(s) <= s.len(),
        forall|i: int| 0 <= i < digit_run(s) ==> is_digit(#[trigger] s[i]),
        digit_run(s) < s.len() ==> !is_digit(s[digit_run(s) as int]),
    decreases s.len(),
{
    if s.len() > 0 && is_digit(s[0]) {
        lemma_digit_run(s.drop_first());
        assert forall|i: int| 0 <= i < digit_run(s) implies is_digit(#[trigger] s[i]) by {
            if i > 0 {
                assert(s[i] == s.drop_first()[i - 1]);
            }
        }
    }
}

proof fn lemma_digits_value_grows(s: Seq<char>, i: int, j: int)
    requires
        0 <= i <= j <= s.len(),
        forall|k: int| 0 <= k < j ==> is_digit(#[trigger] s[k]),
    ensures
        0 <= digits_value(s.take(i)) <= digits_value(s.take(j)),
    decreases j,
{
    if i < j {
        lemma_digits_value_grows(s, i, j - 1);
        assert(s.take(j).drop_last() =~= s.take(j - 1));
        assert(is_digit(s[j - 1]));
    } else if 0 < j {
        lemma_digits_value_grows(s, j - 1, j - 1);
        assert(s.take(j).drop_last() =~= s.take(j - 1));
        assert(is_digit(s[j - 1]));
    }
}

/// Reads a text as a decimal `i32`.
pub fn parse_i32(s: &[char]) -> (result: Result<i32, IntFault>)
    ensures
        result == parsed_i32(s@),
{
    if s.len() == 0 {
        return Err(IntFault::Empty);
    }
    let negative = s[0] == '-';
    let start: usize = if negative || s[0] == '+' { 1 } else { 0 };
    let ghost body = s@.skip(start as int);
    let ghost run = digit_run(body) as int;
    proof {
        lemma_digit_run(body);
        assert(start == 0 ==> body =~= s@);
        assert(start == 1 ==> body =~= s@.drop_first());
        assert(body.take(0) =~= Seq::<char>::empty());
    }
    let mut value: i64 = 0;
    let mut i: usize = start;
    while i < s.len() && '0' <= s[i] && s[i] <= '9'
        invariant
            start <= i <= s@.len(),
            body == s@.skip(start as int),
            run == digit_run(body),
            i - start <= run <= body.len(),
            forall|k: int| 0 <= k < run ==> is_digit(#[trigger] body[k]),
            run < body.len() ==> !is_digit(body[run]),
            s@.len() > 0,
            start == (if s@[0] == '-' || s@[0] == '+' { 1int } else { 0 }),
            negative == (s@[0] == '-'),
            body == (if s@[0] == '-' || s@[0] == '+' { s@.drop_first() } else { s@ }),
            0 <= value <= 2147483648,
            value == digits_value(body.take(i - start)),
            negative || value <= 2147483647,
        decreases s@.len() - i,
    {
        assert(s@[i as int] == body[i - start]);
        assert(i - start < run);
        let digit: i64 = (s[i] as u32 - '0' as u32) as i64;
        value = value * 10 + digit;
        i = i + 1;
        proof {
            assert(body.take(i - start).drop_last() =~= body.take(i - start - 1));
            lemma_digits_value_grows(body, i - start, run);
        }
        if negative && value > 2147483648 {
            return Err(IntFault::TooSmall);
        }
        if !negative && value > 2147483647 {
            return Err(IntFault::TooLarge);
        }
    }
    assert(i - start == run) by {
        if i < s@.len() {
            assert(s@[i as int] == body[i - start]);
        }
    }
    if i == start || i < s.len() {
        return Err(IntFault::InvalidDigit);
    }
    if negative {
        Ok((-value) as i32)
    } else {
        Ok(value as i32)
    }
}

/// The position of the first line feed, or the length where there is none.
pub open spec fn line_end(s: Seq<char>) -> nat
    decreases s.len(),
{
    if s.len() == 0 || s[0] == '\n' {
        0
    } else {
        1 + line_end(s.drop_first())
    }
}

/// A line without the carriage return that may end it.
pub open spec fn without_cr(line: Seq<char>) -> Seq<char> {
    if line.len() > 0 && line.last() == '\r' {
        line.drop_last()
    } else {
        line
    }
}

/// The lines of a text. A line ends with a line feed, or with a carriage
/// return and a line feed; the last one may have no ending.
pub open spec fn lines(s: Seq<char>) -> Seq<Seq<char>>
    decreases s.len(),
{
    if s.len() == 0 {
        Seq::empty()
    } else if line_end(s) >= s.len() {
        seq![s]
    } else {
        seq![without_cr(s.take(line_end(s) as int))] + lines(s.skip(line_end(s) as int + 1))
    }
}

/// The position after one more line: `X=` and `Y=` lines set a coordinate,
/// every other line is passed over.
pub open spec fn after_line(at: (i32, i32), line: Seq<char>) -> Result<(i32, i32), IntFault> {
    if line.len() >= 2 && line[0] == 'X' && line[1] == '=' {
        match parsed_i32(line.skip(2)) {
            Ok(x) => Ok((x, at.1)),
            Err(fault) => Err(fault),
        }
    } else if line.len() >= 2 && line[0] == 'Y' && line[1] == '=' {
        match parsed_i32(line.skip(2)) {
            Ok(y) => Ok((at.0, y)),
            Err(fault) => Err(fault),
        }
    } else {
        Ok(at)
    }
}

/// The position after all lines, or the first fault among them.
pub open spec fn after_lines(at: (i32, i32), lines: Seq<Seq<char>>) -> Result<
    (i32, i32),
    IntFault,
>
    decreases lines.len(),
{
    if lines.len() == 0 {
        Ok(at)
    } else {
        match after_line(at, lines[0]) {
            Ok(next) => after_lines(next, lines.drop_first()),
            Err(fault) => Err(fault),
        }
    }
}

/// The position that a report in shell notation gives; a coordinate that no
/// line sets is zero.
pub open spec fn reported_position(text: Seq<char>) -> Result<(i32, i32), IntFault> {
    after_lines((0, 0), lines(text))
}

/// The message of a fault.
pub open spec fn fault_text(fault: IntFault) -> Seq<char> {
    match fault {
        IntFault::Empty => "cannot parse integer from empty string"@,
        IntFault::InvalidDigit => "invalid digit found in string"@,
        IntFault::TooLarge => "number too large to fit in target type"@,
        IntFault::TooSmall => "number too small to fit in target type"@,
    }
}

impl IntFault {
    /// The message of this fault.
    pub fn message(self) -> (text: String)
        ensures
            text@ == fault_text(self),
    {
        match self {
            IntFault::Empty => "cannot parse integer from empty string".to_owned(),
            IntFault::InvalidDigit => "invalid digit found in string".to_owned(),
            IntFault::TooLarge => "number too large to fit in target type".to_owned(),
            IntFault::TooSmall => "number too small to fit in target type".to_owned(),
        }
    }
}

fn read_line(at: (i32, i32), line: &[char]) -> (next: Result<(i32, i32), IntFault>)
    ensures
        next == after_line(at, line@),
{
    if line.len() >= 2 && line[1] == '=' && (line[0] == 'X' || line[0] == 'Y') {
        let value = slice_subrange(line, 2, line.len());
        assert(value@ =~= line@.skip(2));
        match parse_i32(value) {
            Ok(number) => if line[0] == 'X' {
                Ok((number, at.1))
            } else {
                Ok((at.0, number))
            },
            Err(fault) => Err(fault),
        }
    } else {
        Ok(at)
    }
}

fn find_line_end(s: &[char]) -> (end: usize)
    ensures
        end == line_end(s@),
        end <= s@.len(),
{
    let mut i: usize = 0;
    assert(s@.skip(0) =~= s@);
    while i < s.len() && s[i] != '\n'
        invariant
            i <= s@.len(),
            line_end(s@) == i + line_end(s@.skip(i as int)),
        decreases s@.len() - i,
    {
        assert(s@.skip(i as int).drop_first() =~= s@.skip(i + 1));
        i = i + 1;
    }
    i
}

/// Reads the position from a report in shell notation.
pub fn read_position(text: &str) -> (position: Result<(i32, i32), IntFault>)
    ensures
        position == reported_position(text@),
{
    let chars = char_vec(text);
    let mut rest: &[char] = chars.as_slice();
    let mut at: (i32, i32) = (0, 0);
    while rest.len() > 0
        invariant
            reported_position(text@) == after_lines(at, lines(rest@)),
        decreases rest@.len(),
    {
        let end = find_line_end(rest);
        let ghost whole = rest@;
        if end == rest.len() {
            proof {
                reveal_with_fuel(after_lines, 2);
                assert(lines(whole).drop_first() =~= Seq::empty());
            }
            return read_line(at, rest);
        }
        let stop: usize = if end > 0 && rest[end - 1] == '\r' { end - 1 } else { end };
        let line = slice_subrange(rest, 0, stop);
        assert(line@ =~= without_cr(whole.take(end as int)));
        match read_line(at, line) {
            Ok(next) => {
                at = next;
            },
            Err(fault) => {
                return Err(fault);
            },
        }
        rest = slice_subrange(rest, end + 1, rest.len());
        proof {
            assert(rest@ =~= whole.skip(end + 1));
            assert(lines(whole).drop_first() =~= lines(rest@));
        }
    }
    Ok(at)
}

/// The message of the error that decoding bytes which are no UTF-8 gives.
pub uninterp spec fn utf8_error_text(bytes: Seq<u8>) -> Seq<char>;

/// `String::from_utf8`: the decoded text where the bytes are UTF-8, and else
/// an error, of which the message is taken. The message depends on the bytes
/// alone; its wording is left to the standard library.
#[verifier::external_body]
fn text_from_utf8(bytes: Vec<u8>) -> (text: Result<String, String>)
    ensures
        text is Ok <==> valid_utf8(bytes@),
        text matches Ok(decoded) ==> decoded@ == decode_utf8(bytes@),
        text matches Err(message) ==> message@ == utf8_error_text(bytes@),
{
    match String::from_utf8(bytes) {
        Ok(decoded) => Ok(decoded),
        Err(error) => Err(error.to_string()),
    }
}

/// A position, or the message of what went wrong.
pub open spec fn position_text(position: Result<(i32, i32), IntFault>) -> Result<
    (i32, i32),
    Seq<char>,
> {
    match position {
        Ok(at) => Ok(at),
        Err(fault) => Err(fault_text(fault)),
    }
}

/// A result with its message taken by its characters.
pub open spec fn position_view(position: Result<(i32, i32), String>) -> Result<
    (i32, i32),
    Seq<char>,
> {
    match position {
        Ok(at) => Ok(at),
        Err(message) => Err(message@),
    }
}

/// The position that the tool's decoded output gives, or the decoder's message.
pub fn position_from_text(text: Result<String, String>) -> (position: Result<(i32, i32), String>)
    ensures
        position_view(position) == (match text {
            Ok(decoded) => position_text(reported_position(decoded@)),
            Err(message) => Err(message@),
        }),
{
    match text {
        Ok(decoded) => match read_position(decoded.as_str()) {
            Ok(at) => Ok(at),
            Err(fault) => Err(fault.message()),
        },
        Err(message) => Err(message),
    }
}

/// The pointer's position from a run of `xdotool getmouselocation --shell`:
/// its standard output, or the message of why it did not run.
pub fn get_cursor_position(output: Result<Vec<u8>, String>) -> (position: Result<
    (i32, i32),
    String,
>)
    ensures
        position_view(position) == (match output {
            Ok(bytes) => if valid_utf8(bytes@) {
                position_text(reported_position(decode_utf8(bytes@)))
            } else {
                Err(utf8_error_text(bytes@))
            },
            Err(message) => Err("xdotool error: "@ + message@),
        }),
{
    match output {
        Ok(bytes) => position_from_text(text_from_utf8(bytes)),
        Err(message) => {
            let mut text = "xdotool error: ".to_owned();
            text.append(message.as_str());
            Err(text)
        },
    }
}

/// The pointer's position where the system call gave one, and else the origin.
pub fn point_or_origin(point: Option<(i32, i32)>) -> (position: (i32, i32))
    ensures
        position == (match point {
            Some(at) => at,
            None => (0i32, 0i32),
        }),
{
    match point {
        Some(at) => at,
        None => (0, 0),
    }
}

proof fn lemma_all_digits(s: Seq<char>)
    requires
        forall|i: int| 0 <= i < s.len() ==> is_digit(#[trigger] s[i]),
    ensures
        digit_run(s) == s.len(),
{
    lemma_digit_run(s);
    if digit_run(s) < s.len() {
        assert(is_digit(s[digit_run(s) as int]));
    }
}

/// Reading the decimal text of an `i32` gives that number back.
pub proof fn law_reading_inverts_decimal(n: i32)
    ensures
        parsed_i32(signed_decimal(n as int)) == Ok::<i32, IntFault>(n),
{
    let digits = decimal((if n < 0 { -(n as int) } else { n as int }) as nat);
    let s = signed_decimal(n as int);
    lemma_decimal((if n < 0 { -(n as int) } else { n as int }) as nat);
    lemma_all_digits(digits);
    assert(digits.take(digits.len() as int) =~= digits);
    assert(is_digit(digits[0]));
    if n < 0 {
        assert(s.drop_first() =~= digits);
    }
}

/// A line that can stand in a report: no line feed in it, and no carriage
/// return at its end.
pub open spec fn is_line(line: Seq<char>) -> bool {
    &&& forall|i: int| 0 <= i < line.len() ==> #[trigger] line[i] != '\n'
    &&& line.len() > 0 ==> line.last() != '\r'
}

/// Lines written one below the other, each ended by a line feed.
pub open spec fn joined(list: Seq<Seq<char>>) -> Seq<char>
    decreases list.len(),
{
    if list.len() == 0 {
        Seq::empty()
    } else {
        list[0] + seq!['\n'] + joined(list.drop_first())
    }
}

proof fn lemma_line_end(line: Seq<char>, rest: Seq<char>)
    requires
        forall|i: int| 0 <= i < line.len() ==> #[trigger] line[i] != '\n',
    ensures
        line_end(line + seq!['\n'] + rest) == line.len(),
    decreases line.len(),
{
    let whole = line + seq!['\n'] + rest;
    if line.len() > 0 {
        assert(whole[0] == line[0]);
        assert(whole.drop_first() =~= line.drop_first() + seq!['\n'] + rest);
        lemma_line_end(line.drop_first(), rest);
    }
}

/// Splitting joined lines gives the lines back.
pub proof fn law_lines_inverts_joined(list: Seq<Seq<char>>)
    requires
        forall|i: int| 0 <= i < list.len() ==> is_line(#[trigger] list[i]),
    ensures
        lines(joined(list)) == list,
    decreases list.len(),
{
    if list.len() > 0 {
        let (line, tail) = (list[0], list.drop_first());
        let whole = joined(list);
        law_lines_inverts_joined(tail);
        assert(is_line(list[0]));
        lemma_line_end(line, joined(tail));
        assert(whole.take(line.len() as int) =~= line);
        assert(whole.skip(line.len() as int + 1) =~= joined(tail));
        assert(list =~= seq![line] + tail);
    } else {
        assert(lines(joined(list)) =~= list);
    }
}

/// The tool's report on a pointer at `(x, y)`: a line per coordinate, then the
/// screen's and the window's number.
pub open spec fn shell_report(x: i32, y: i32, screen: nat, window: nat) -> Seq<char> {
    joined(
        seq![
            "X="@ + signed_decimal(x as int),
            "Y="@ + signed_decimal(y as int),
            "SCREEN="@ + decimal(screen),
            "WINDOW="@ + decimal(window),
        ],
    )
}

proof fn lemma_report_line(name: Seq<char>, n: int)
    requires
        forall|i: int| 0 <= i < name.len() ==> #[trigger] name[i] != '\n',
    ensures
        is_line(name + signed_decimal(n)),
{
    let digits = decimal((if n < 0 { -n } else { n }) as nat);
    lemma_decimal((if n < 0 { -n } else { n }) as nat);
    assert forall|i: int| 0 <= i < signed_decimal(n).len() implies (#[trigger] signed_decimal(n)[i]
        == '-' || is_digit(signed_decimal(n)[i])) by {
        if n < 0 && i > 0 {
            assert(signed_decimal(n)[i] == digits[i - 1]);
        }
    }
    assert((name + signed_decimal(n)).last() == signed_decimal(n).last());
}

/// The position read from the tool's report is the position reported, from its
/// characters as from its UTF-8 bytes.
pub proof fn law_report_is_read_back(x: i32, y: i32, screen: nat, window: nat)
    ensures
        reported_position(shell_report(x, y, screen, window)) == Ok::<(i32, i32), IntFault>((x, y)),
        ({
            let bytes = encode_utf8(shell_report(x, y, screen, window));
            valid_utf8(bytes) && reported_position(decode_utf8(bytes)) == Ok::<
                (i32, i32),
                IntFault,
            >((x, y))
        }),
{
    encode_utf8_valid_utf8(shell_report(x, y, screen, window));
    encode_utf8_decode_utf8(shell_report(x, y, screen, window));
    reveal_strlit("X=");
    reveal_strlit("Y=");
    reveal_strlit("SCREEN=");
    reveal_strlit("WINDOW=");
    let list = seq![
        "X="@ + signed_decimal(x as int),
        "Y="@ + signed_decimal(y as int),
        "SCREEN="@ + decimal(screen),
        "WINDOW="@ + decimal(window),
    ];
    lemma_report_line("X="@, x as int);
    lemma_report_line("Y="@, y as int);
    lemma_report_line("SCREEN="@, screen as int);
    lemma_report_line("WINDOW="@, window as int);
    law_lines_inverts_joined(list);
    law_reading_inverts_decimal(x);
    law_reading_inverts_decimal(y);
    assert(list[0].skip(2) =~= signed_decimal(x as int));
    assert(list[1].skip(2) =~= signed_decimal(y as int));
    let (l1, l2, l3) = (
        list.drop_first(),
        list.drop_first().drop_first(),
        list.drop_first().drop_first().drop_first(),
    );
    assert(list[0][0] == 'X' && list[0][1] == '=');
    assert(l1[0][0] == 'Y' && l1[0][1] == '=');
    assert(l2[0][0] == 'S');
    assert(l3[0][0] == 'W');
    assert(after_lines((x, y), l3.drop_first()) == Ok::<(i32, i32), IntFault>((x, y)));
    assert(after_lines((x, y), l3) == Ok::<(i32, i32), IntFault>((x, y)));
    assert(after_lines((x, y), l2) == Ok::<(i32, i32), IntFault>((x, y)));
    assert(after_lines((x, 0), l1) == Ok::<(i32, i32), IntFault>((x, y)));
}

proof fn lemma_run_stops(digits: Seq<char>, rest: Seq<char>)
    requires
        forall|i: int| 0 <= i < digits.len() ==> is_digit(#[trigger] digits[i]),
        rest.len() > 0 ==> !is_digit(rest[0]),
    ensures
        digit_run(digits + rest) == digits.len(),
    decreases digits.len(),
{
    let whole = digits + rest;
    if digits.len() > 0 {
        assert(whole[0] == digits[0]);
        assert(whole.drop_first() =~= digits.drop_first() + rest);
        lemma_run_stops(digits.drop_first(), rest);
    } else {
        assert(whole =~= rest);
    }
}

/// How a number is read, from its parts: a sign or none, digits, and what follows them.
/// Digits with nothing behind them are their value, negative just behind a minus sign; a
/// value out of range is a fault whatever follows, and else no digits, or anything behind
/// them, is one; only the empty text is empty.
pub proof fn law_number_is_read_by_its_parts(
    sign: Seq<char>,
    digits: Seq<char>,
    rest: Seq<char>,
)
    requires
        sign == Seq::<char>::empty() || sign == seq!['+'] || sign == seq!['-'],
        forall|i: int| 0 <= i < digits.len() ==> is_digit(#[trigger] digits[i]),
        rest.len() > 0 ==> !is_digit(rest[0]),
        sign.len() == 0 && digits.len() == 0 && rest.len() > 0 ==> rest[0] != '+' && rest[0] != '-',
    ensures
        ({
            let read = parsed_i32(sign + digits + rest);
            let value = if sign == seq!['-'] {
                -digits_value(digits)
            } else {
                digits_value(digits)
            };
            if sign.len() + digits.len() + rest.len() == 0 {
                read == Err::<i32, IntFault>(IntFault::Empty)
            } else if value > 2147483647 {
                read == Err::<i32, IntFault>(IntFault::TooLarge)
            } else if value < -2147483648 {
                read == Err::<i32, IntFault>(IntFault::TooSmall)
            } else if digits.len() == 0 || rest.len() > 0 {
                read == Err::<i32, IntFault>(IntFault::InvalidDigit)
            } else {
                read is Ok && read->Ok_0 as int == value
            }
        }),
{
    let s = sign + digits + rest;
    let body = digits + rest;
    lemma_run_stops(digits, rest);
    assert(body.take(digits.len() as int) =~= digits);
    if sign.len() == 0 {
        assert(sign != seq!['-']);
        assert(s =~= body);
        if digits.len() > 0 {
            assert(is_digit(digits[0]));
            assert(s[0] == digits[0]);
        } else if rest.len() > 0 {
            assert(s[0] == rest[0]);
        }
    } else {
        assert(s[0] == sign[0]);
        assert(s.drop_first() =~= body);
        assert(sign == seq!['-'] <==> sign[0] == '-') by {
            if sign == seq!['+'] {
                assert(sign[0] == '+');
                assert(seq!['-'][0] == '-');
            }
        }
    }
}

proof fn lemma_line_end_is_first(s: Seq<char>)
    ensures
        line_end(s) <= s.len(),
        forall|i: int| 0 <= i < line_end(s) ==> #[trigger] s[i] != '\n',
        line_end(s) < s.len() ==> s[line_end(s) as int] == '\n',
    decreases s.len(),
{
    if s.len() > 0 && s[0] != '\n' {
        lemma_line_end_is_first(s.drop_first());
        assert forall|i: int| 0 <= i < line_end(s) implies #[trigger] s[i] != '\n' by {
            if i > 0 {
                assert(s[i] == s.drop_first()[i - 1]);
            }
        }
    }
}

/// How a text falls into lines: a line feed ends a line, and so does a carriage return
/// with a line feed, of which nothing is kept; a last line without an ending is kept as
/// it is, and an empty text has no lines.
pub proof fn law_lines_end_with_line_feeds(line: Seq<char>, rest: Seq<char>)
    requires
        forall|i: int| 0 <= i < line.len() ==> #[trigger] line[i] != '\n',
    ensures
        lines(Seq::empty()).len() == 0,
        line.len() > 0 ==> lines(line) == seq![line],
        line.len() == 0 || line.last() != '\r' ==> lines(line + seq!['\n'] + rest) == seq![line]
            + lines(rest),
        lines(line + seq!['\r', '\n'] + rest) == seq![line] + lines(rest),
{
    lemma_line_end_is_first(line);
    if line.len() > 0 && line_end(line) < line.len() {
        assert(line[line_end(line) as int] != '\n');
    }
    let plain = line + seq!['\n'] + rest;
    lemma_line_end(line, rest);
    assert(plain.take(line.len() as int) =~= line);
    assert(plain.skip(line.len() as int + 1) =~= rest);
    let longer = line.push('\r');
    let both = line + seq!['\r', '\n'] + rest;
    assert(both =~= longer + seq!['\n'] + rest);
    lemma_line_end(longer, rest);
    assert(both.take(longer.len() as int) =~= longer);
    assert(both.skip(longer.len() as int + 1) =~= rest);
    assert(longer.drop_last() =~= line);
}

proof fn lemma_lines_of_sum(head: Seq<char>, tail: Seq<char>)
    requires
        head.len() > 0 ==> head.last() == '\n',
    ensures
        lines(head + tail) == lines(head) + lines(tail),
    decreases head.len(),
{
    if head.len() == 0 {
        assert(head + tail =~= tail);
        assert(lines(head) + lines(tail) =~= lines(tail));
    } else {
        let end = line_end(head) as int;
        lemma_line_end_is_first(head);
        if end == head.len() {
            assert(head[head.len() - 1] != '\n');
        }
        let (line, rest) = (head.take(end), head.skip(end + 1));
        assert(head + tail =~= line + seq!['\n'] + (rest + tail));
        lemma_line_end(line, rest + tail);
        assert((head + tail).take(end) =~= line);
        assert((head + tail).skip(end + 1) =~= rest + tail);
        lemma_lines_of_sum(rest, tail);
        assert(lines(head + tail) =~= lines(head) + lines(tail));
    }
}

proof fn lemma_after_lines_of_sum(at: (i32, i32), first: Seq<Seq<char>>, second: Seq<Seq<char>>)
    ensures
        after_lines(at, first + second) == (match after_lines(at, first) {
            Ok(next) => after_lines(next, second),
            Err(fault) => Err(fault),
        }),
    decreases first.len(),
{
    if first.len() == 0 {
        assert(first + second =~= second);
    } else {
        assert((first + second)[0] == first[0]);
        assert((first + second).drop_first() =~= first.drop_first() + second);
        match after_line(at, first[0]) {
            Ok(next) => lemma_after_lines_of_sum(next, first.drop_first(), second),
            Err(_) => {},
        }
    }
}

/// Whether a line can be followed by this ending: none, a line feed, or a carriage
/// return and a line feed. A line that itself ends with a carriage return has no bare
/// line feed behind it.
pub open spec fn can_end(line: Seq<char>, ending: Seq<char>) -> bool {
    &&& forall|i: int| 0 <= i < line.len() ==> #[trigger] line[i] != '\n'
    &&& ending == Seq::<char>::empty() || ending == seq!['\r', '\n'] || (ending == seq!['\n']
        && (line.len() > 0 ==> line.last() != '\r'))
}

proof fn lemma_one_more_line(head: Seq<char>, line: Seq<char>, ending: Seq<char>)
    requires
        head.len() > 0 ==> head.last() == '\n',
        can_end(line, ending),
    ensures
        reported_position(head + line + ending) == (match reported_position(head) {
            Ok(at) => after_line(at, line),
            Err(fault) => Err(fault),
        }),
{
    let tail = line + ending;
    assert(head + line + ending =~= head + tail);
    lemma_lines_of_sum(head, tail);
    lemma_after_lines_of_sum((0, 0), lines(head), lines(tail));
    law_lines_end_with_line_feeds(line, Seq::empty());
    assert(seq![line] + lines(Seq::<char>::empty()) =~= seq![line]);
    assert(line + seq!['\n'] + Seq::<char>::empty() =~= line + seq!['\n']);
    assert(line + seq!['\r', '\n'] + Seq::<char>::empty() =~= line + seq!['\r', '\n']);
    if ending == Seq::<char>::empty() {
        assert(tail =~= line);
        assert(line.len() == 0 ==> line =~= Seq::<char>::empty());
    }
    if line.len() + ending.len() > 0 {
        assert(lines(tail) == seq![line]);
        assert(seq![line].drop_first() =~= Seq::<Seq<char>>::empty());
        reveal_with_fuel(after_lines, 2);
    }
}

/// A report is read line by line. One more line that sets the first coordinate sets it to
/// the number behind `X=`, keeps the other, and is the fault of that number where it is
/// none; after a fault nothing is read. Nothing reported is the origin.
pub proof fn law_x_line_sets_the_first_coordinate(
    head: Seq<char>,
    value: Seq<char>,
    ending: Seq<char>,
)
    requires
        head.len() > 0 ==> head.last() == '\n',
        can_end(value, ending),
    ensures
        reported_position(Seq::empty()) == Ok::<(i32, i32), IntFault>((0, 0)),
        reported_position(head + (seq!['X', '='] + value) + ending) == (match (
            reported_position(head),
            parsed_i32(value),
        ) {
            (Err(fault), _) => Err::<(i32, i32), IntFault>(fault),
            (Ok(at), Ok(x)) => Ok((x, at.1)),
            (Ok(_), Err(fault)) => Err(fault),
        }),
{
    let line = seq!['X', '='] + value;
    assert(line.skip(2) =~= value);
    lemma_one_more_line(head, line, ending);
}

/// One more line that sets the second coordinate sets it to the number behind `Y=`, keeps
/// the other, and is the fault of that number where it is none.
pub proof fn law_y_line_sets_the_second_coordinate(
    head: Seq<char>,
    value: Seq<char>,
    ending: Seq<char>,
)
    requires
        head.len() > 0 ==> head.last() == '\n',
        can_end(value, ending),
    ensures
        reported_position(head + (seq!['Y', '='] + value) + ending) == (match (
            reported_position(head),
            parsed_i32(value),
        ) {
            (Err(fault), _) => Err::<(i32, i32), IntFault>(fault),
            (Ok(at), Ok(y)) => Ok((at.0, y)),
            (Ok(_), Err(fault)) => Err(fault),
        }),
{
    let line = seq!['Y', '='] + value;
    assert(line.skip(2) =~= value);
    lemma_one_more_line(head, line, ending);
}

/// One more line that begins with neither `X=` nor `Y=` changes nothing, not even a fault.
pub proof fn law_other_lines_are_passed_over(head: Seq<char>, line: Seq<char>, ending: Seq<char>)
    requires
        head.len() > 0 ==> head.last() == '\n',
        can_end(line, ending),
        line.len() >= 2 && line[1] == '=' ==> line[0] != 'X' && line[0] != 'Y',
    ensures
        reported_position(head + line + ending) == reported_position(head),
{
    lemma_one_more_line(head, line, ending);
}

/// A position is handed on as it is, and a fault by its message.
pub proof fn law_positions_are_handed_on(at: (i32, i32), fault: IntFault, message: String)
    ensures
        position_text(Ok(at)) == Ok::<(i32, i32), Seq<char>>(at),
        position_text(Err(fault)) == Err::<(i32, i32), Seq<char>>(fault_text(fault)),
        position_view(Ok(at)) == Ok::<(i32, i32), Seq<char>>(at),
        position_view(Err(message)) == Err::<(i32, i32), Seq<char>>(message@),
{
}

} // verus!
