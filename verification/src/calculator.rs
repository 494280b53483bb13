//! Calculator input: keyboard mapping, operator symbols, and the editing
//! rules of the entry text (digits, decimal point, backspace, sign).
//! Arithmetic on the entered values is floating point and stays with the
//! app.

use vstd::prelude::*;
use vstd::string::*;
use crate::strings::str_eq;

verus! {

/// Most digits an entry holds.
pub const MAX_ENTRY_DIGITS: usize = 16;

/// Binary calculator operators.
#[derive(Debug, Clone, Copy, PartialEq, Eq, Structural)]
pub enum BinaryOp {
    Add,
    Subtract,
    Multiply,
    Divide,
}

pub open spec fn op_symbol(op: BinaryOp) -> Seq<char> {
    match op {
        BinaryOp::Add => "+"@,
        BinaryOp::Subtract => "-"@,
        BinaryOp::Multiply => "*"@,
        BinaryOp::Divide => "/"@,
    }
}

impl BinaryOp {
    /// The operator's symbol in expressions.
    pub fn symbol(self) -> (r: &'static str)
        ensures
            r@ == op_symbol(self),
    {
        match self {
            BinaryOp::Add => "+",
            BinaryOp::Subtract => "-",
            BinaryOp::Multiply => "*",
            BinaryOp::Divide => "/",
        }
    }
}

/// Unary calculator operators.
#[derive(Debug, Clone, Copy, PartialEq, Eq, Structural)]
pub enum UnaryOp {
    ToggleSign,
    Sqrt,
    Percent,
    Reciprocal,
}

/// Calculator button and key actions.
#[derive(Debug, Clone, Copy, PartialEq, Eq, Structural)]
pub enum CalcAction {
    Digit(char),
    DoubleZero,
    Decimal,
    Backspace,
    ClearEntry,
    ClearAll,
    Binary(BinaryOp),
    Unary(UnaryOp),
    Equals,
    MemoryClear,
    MemoryRecall,
    MemoryStore,
    MemoryAdd,
    MemorySubtract,
    UseLast,
}

/// The action a keyboard key triggers, if any.
pub open spec fn key_action(key: Seq<char>) -> Option<CalcAction> {
    if key.len() == 1 && '0' <= key[0] && key[0] <= '9' {
        Some(CalcAction::Digit(key[0]))
    } else if key == "."@ || key == ","@ {
        Some(CalcAction::Decimal)
    } else if key == "+"@ {
        Some(CalcAction::Binary(BinaryOp::Add))
    } else if key == "-"@ {
        Some(CalcAction::Binary(BinaryOp::Subtract))
    } else if key == "*"@ || key == "x"@ || key == "X"@ {
        Some(CalcAction::Binary(BinaryOp::Multiply))
    } else if key == "/"@ {
        Some(CalcAction::Binary(BinaryOp::Divide))
    } else if key == "%"@ {
        Some(CalcAction::Unary(UnaryOp::Percent))
    } else if key == "="@ || key == "Enter"@ {
        Some(CalcAction::Equals)
    } else if key == "Backspace"@ {
        Some(CalcAction::Backspace)
    } else if key == "Delete"@ {
        Some(CalcAction::ClearEntry)
    } else if key == "Escape"@ {
        Some(CalcAction::ClearAll)
    } else if key == "F9"@ {
        Some(CalcAction::Unary(UnaryOp::ToggleSign))
    } else {
        None
    }
}

fn single_digit(key: &str) -> (r: Option<char>)
    ensures
        r == (if key@.len() == 1 && '0' <= key@[0] && key@[0] <= '9' {
            Some(key@[0])
        } else {
            None::<char>
        }),
{
    if key.unicode_len() == 1 {
        let c = key.get_char(0);
        if '0' <= c && c <= '9' {
            return Some(c);
        }
    }
    None
}

/// Maps a keyboard key name to its calculator action.
pub fn keyboard_action(key: &str) -> (r: Option<CalcAction>)
    ensures
        r == key_action(key@),
{
    proof {
        reveal_strlit(".");
        reveal_strlit(",");
        reveal_strlit("+");
        reveal_strlit("-");
        reveal_strlit("*");
        reveal_strlit("x");
        reveal_strlit("X");
        reveal_strlit("/");
        reveal_strlit("%");
        reveal_strlit("=");
    }
    if let Some(d) = single_digit(key) {
        return Some(CalcAction::Digit(d));
    }
    if str_eq(key, ".") || str_eq(key, ",") {
        Some(CalcAction::Decimal)
    } else if str_eq(key, "+") {
        Some(CalcAction::Binary(BinaryOp::Add))
    } else if str_eq(key, "-") {
        Some(CalcAction::Binary(BinaryOp::Subtract))
    } else if str_eq(key, "*") || str_eq(key, "x") || str_eq(key, "X") {
        Some(CalcAction::Binary(BinaryOp::Multiply))
    } else if str_eq(key, "/") {
        Some(CalcAction::Binary(BinaryOp::Divide))
    } else if str_eq(key, "%") {
        Some(CalcAction::Unary(UnaryOp::Percent))
    } else if str_eq(key, "=") || str_eq(key, "Enter") {
        Some(CalcAction::Equals)
    } else if str_eq(key, "Backspace") {
        Some(CalcAction::Backspace)
    } else if str_eq(key, "Delete") {
        Some(CalcAction::ClearEntry)
    } else if str_eq(key, "Escape") {
        Some(CalcAction::ClearAll)
    } else if str_eq(key, "F9") {
        Some(CalcAction::Unary(UnaryOp::ToggleSign))
    } else {
        None
    }
}

// ---------------------------------------------------------------------
// Entry editing
// ---------------------------------------------------------------------

pub open spec fn is_digit(c: char) -> bool {
    '0' <= c && c <= '9'
}

/// Number of ASCII digits in `s`.
pub open spec fn digit_count(s: Seq<char>) -> nat
    decreases s.len(),
{
    if s.len() == 0 {
        0
    } else {
        digit_count(s.drop_last()) + if is_digit(s.last()) {
            1nat
        } else {
            0nat
        }
    }
}

/// The entry a new input starts from: `"0"` when the shown value is a
/// result to be replaced.
pub open spec fn entry_base(entry: Seq<char>, replace_entry: bool) -> Seq<char> {
    if replace_entry {
        "0"@
    } else {
        entry
    }
}

/// Typing `digit`: a full entry (16 digits) refuses it; a lone zero, with
/// or without sign, is replaced rather than extended (and stays as it is
/// for another zero); otherwise the digit is appended. The flag tells
/// whether the digit was taken.
pub open spec fn digit_entry(entry: Seq<char>, replace_entry: bool, digit: char) -> (Seq<char>, bool) {
    let base = entry_base(entry, replace_entry);
    if digit_count(base) >= MAX_ENTRY_DIGITS {
        (base, false)
    } else if base == "0"@ {
        (if digit == '0' {
            base
        } else {
            seq![digit]
        }, true)
    } else if base == "-0"@ {
        (if digit == '0' {
            base
        } else {
            seq!['-', digit]
        }, true)
    } else {
        (base.push(digit), true)
    }
}

/// Typing the decimal point: appended when the entry has none.
pub open spec fn decimal_entry(entry: Seq<char>, replace_entry: bool) -> (Seq<char>, bool) {
    let base = entry_base(entry, replace_entry);
    if base.contains('.') {
        (base, false)
    } else {
        (base.push('.'), true)
    }
}

/// Backspace: a replaceable result becomes `"0"`; otherwise the last
/// character goes, and an empty entry or a lone minus becomes `"0"`.
pub open spec fn backspace_entry(entry: Seq<char>, replace_entry: bool) -> Seq<char> {
    if replace_entry {
        "0"@
    } else {
        let e = if entry.len() > 0 {
            entry.drop_last()
        } else {
            entry
        };
        if e.len() == 0 || e == "-"@ {
            "0"@
        } else {
            e
        }
    }
}

/// Sign toggle: zero stays unsigned; a leading minus is dropped, otherwise
/// one is added. `None` means the entry stays as it is.
pub open spec fn toggled_entry(entry: Seq<char>) -> Option<Seq<char>> {
    if entry == "0"@ || entry == "0."@ {
        None
    } else if entry.len() > 0 && entry[0] == '-' {
        Some(entry.drop_first())
    } else {
        Some(seq!['-'] + entry)
    }
}

fn count_digits(s: &str) -> (r: usize)
    ensures
        r == digit_count(s@),
{
    let n = s.unicode_len();
    let mut i: usize = 0;
    let mut count: usize = 0;
    assert(s@.take(0) =~= Seq::<char>::empty());
    while i < n
        invariant
            n == s@.len(),
            i <= n,
            count <= i,
            count == digit_count(s@.take(i as int)),
        decreases n - i,
    {
        let c = s.get_char(i);
        assert(s@.take(i + 1).drop_last() =~= s@.take(i as int));
        if '0' <= c && c <= '9' {
            count = count + 1;
        }
        i = i + 1;
    }
    assert(s@.take(n as int) =~= s@);
    count
}

fn contains_char(s: &str, c: char) -> (r: bool)
    ensures
        r == s@.contains(c),
{
    let n = s.unicode_len();
    let mut i: usize = 0;
    while i < n
        invariant
            n == s@.len(),
            i <= n,
            forall|k: int| 0 <= k < i ==> s@[k] != c,
        decreases n - i,
    {
        if s.get_char(i) == c {
            return true;
        }
        i = i + 1;
    }
    false
}

fn char_string(c: char) -> (r: String)
    ensures
        r@ == seq![c],
{
    let mut s = String::new();
    s.push(c);
    assert(s@ =~= seq![c]);
    s
}

/// The entry after typing `digit`, and whether the digit was taken.
pub fn input_digit(entry: &str, replace_entry: bool, digit: char) -> (r: (String, bool))
    ensures
        (r.0@, r.1) == digit_entry(entry@, replace_entry, digit),
{
    proof {
        reveal_strlit("0");
        reveal_strlit("-0");
    }
    let base = if replace_entry {
        String::from_str("0")
    } else {
        String::from_str(entry)
    };
    if count_digits(base.as_str()) >= MAX_ENTRY_DIGITS {
        return (base, false);
    }
    if str_eq(base.as_str(), "0") {
        if digit == '0' {
            return (base, true);
        }
        return (char_string(digit), true);
    }
    if str_eq(base.as_str(), "-0") {
        if digit == '0' {
            return (base, true);
        }
        let mut s = String::from_str("-");
        proof {
            reveal_strlit("-");
        }
        s.push(digit);
        assert(s@ =~= seq!['-', digit]);
        return (s, true);
    }
    let mut s = base;
    s.push(digit);
    (s, true)
}

/// The entry after typing the decimal point, and whether it was taken.
pub fn input_decimal(entry: &str, replace_entry: bool) -> (r: (String, bool))
    ensures
        (r.0@, r.1) == decimal_entry(entry@, replace_entry),
{
    proof {
        reveal_strlit("0");
    }
    let mut base = if replace_entry {
        String::from_str("0")
    } else {
        String::from_str(entry)
    };
    if contains_char(base.as_str(), '.') {
        (base, false)
    } else {
        base.push('.');
        (base, true)
    }
}

/// The entry after backspace.
pub fn backspace(entry: &str, replace_entry: bool) -> (r: String)
    ensures
        r@ == backspace_entry(entry@, replace_entry),
{
    proof {
        reveal_strlit("0");
        reveal_strlit("-");
    }
    if replace_entry {
        return String::from_str("0");
    }
    let n = entry.unicode_len();
    let e = if n > 0 {
        entry.substring_char(0, n - 1)
    } else {
        entry
    };
    assert(n > 0 ==> e@ =~= entry@.drop_last());
    if e.unicode_len() == 0 || str_eq(e, "-") {
        String::from_str("0")
    } else {
        String::from_str(e)
    }
}

/// The entry after toggling its sign, or `None` when it stays.
pub fn toggle_sign(entry: &str) -> (r: Option<String>)
    ensures
        match r {
            Some(s) => toggled_entry(entry@) == Some(s@),
            None => toggled_entry(entry@) is None,
        },
{
    proof {
        reveal_strlit("0");
        reveal_strlit("0.");
    }
    if str_eq(entry, "0") || str_eq(entry, "0.") {
        return None;
    }
    let n = entry.unicode_len();
    if n > 0 && entry.get_char(0) == '-' {
        let rest = entry.substring_char(1, n);
        assert(rest@ =~= entry@.drop_first());
        Some(String::from_str(rest))
    } else {
        let s = String::from_str("-").concat(entry);
        proof {
            reveal_strlit("-");
            assert(s@ =~= seq!['-'] + entry@);
        }
        Some(s)
    }
}

pub open spec fn status_label(has_error: bool, has_pending_op: bool) -> Seq<char> {
    if has_error {
        "Error"@
    } else if has_pending_op {
        "Pending operation"@
    } else {
        "Ready"@
    }
}

/// The status line: an error wins over a pending operation.
pub fn status_text(has_error: bool, has_pending_op: bool) -> (r: &'static str)
    ensures
        r@ == status_label(has_error, has_pending_op),
{
    if has_error {
        "Error"
    } else if has_pending_op {
        "Pending operation"
    } else {
        "Ready"
    }
}

// ---------------------------------------------------------------------
// History tape and expression line
// ---------------------------------------------------------------------

/// Most entries the history tape keeps.
pub const MAX_HISTORY_ITEMS: usize = 24;

/// The newest `MAX_HISTORY_ITEMS` entries of `h`, in order.
pub open spec fn newest_history<T>(h: Seq<T>) -> Seq<T> {
    if h.len() > MAX_HISTORY_ITEMS {
        h.skip(h.len() - MAX_HISTORY_ITEMS)
    } else {
        h
    }
}

/// Appends `item` to the history tape, dropping the oldest entries beyond
/// `MAX_HISTORY_ITEMS`.
pub fn push_history<T>(history: &mut Vec<T>, item: T)
    ensures
        final(history)@ == newest_history(old(history)@.push(item)),
{
    let ghost full = history@.push(item);
    history.push(item);
    let ghost mut k: int = 0;
    assert(full.skip(0) =~= full);
    while history.len() > MAX_HISTORY_ITEMS
        invariant
            0 <= k <= full.len(),
            history@ == full.skip(k),
            k > 0 ==> history@.len() >= MAX_HISTORY_ITEMS,
        decreases history@.len(),
    {
        history.remove(0);
        proof {
            assert(full.skip(k).remove(0) =~= full.skip(k + 1));
            k = k + 1;
        }
    }
}

/// The expression line above the display: the pending operation with its
/// left operand (and the entry, once typing resumed), else the last history
/// line, else the mode banner.
pub open spec fn expression_line(
    pending: Option<(Seq<char>, BinaryOp)>,
    replace_entry: bool,
    entry: Seq<char>,
    last: Option<(Seq<char>, Seq<char>)>,
) -> Seq<char> {
    match pending {
        Some((acc, op)) => if replace_entry {
            acc + " "@ + op_symbol(op)
        } else {
            acc + " "@ + op_symbol(op) + " "@ + entry
        },
        None => match last {
            Some((expression, result)) => "Last: "@ + expression + " = "@ + result,
            None => "Standard mode (XP) | keyboard shortcuts enabled"@,
        },
    }
}

/// Renders the expression line; `pending` holds the formatted left operand
/// and the operator when an operation is pending, `last` the expression and
/// result text of the newest history entry.
pub fn expression_text(
    pending: Option<(&str, BinaryOp)>,
    replace_entry: bool,
    entry: &str,
    last: Option<(&str, &str)>,
) -> (r: String)
    ensures
        r@ == expression_line(
            match pending {
                Some((acc, op)) => Some((acc@, op)),
                None => None,
            },
            replace_entry,
            entry@,
            match last {
                Some((e, t)) => Some((e@, t@)),
                None => None,
            },
        ),
{
    match pending {
        Some((acc, op)) => {
            let head = String::from_str(acc).concat(" ").concat(op.symbol());
            if replace_entry {
                head
            } else {
                head.concat(" ").concat(entry)
            }
        },
        None => match last {
            Some((expression, result)) => String::from_str("Last: ").concat(expression).concat(
                " = ",
            ).concat(result),
            None => String::from_str("Standard mode (XP) | keyboard shortcuts enabled"),
        },
    }
}

// ---------------------------------------------------------------------
// Laws
// ---------------------------------------------------------------------

proof fn lemma_digit_count_push(s: Seq<char>, c: char)
    ensures
        digit_count(s.push(c)) == digit_count(s) + if is_digit(c) {
            1nat
        } else {
            0nat
        },
{
    assert(s.push(c).drop_last() =~= s);
}

/// An entry never grows past 16 digits by typing.
pub proof fn law_entry_digits_bounded(entry: Seq<char>, replace_entry: bool, digit: char)
    requires
        digit_count(entry) <= MAX_ENTRY_DIGITS,
    ensures
        digit_count(digit_entry(entry, replace_entry, digit).0) <= MAX_ENTRY_DIGITS,
{
    let base = entry_base(entry, replace_entry);
    reveal_strlit("0");
    reveal_strlit("-0");
    let e = Seq::<char>::empty();
    assert(digit_count(e) == 0);
    lemma_digit_count_push(e, '0');
    assert("0"@ =~= e.push('0'));
    lemma_digit_count_push(e, digit);
    assert(seq![digit] =~= e.push(digit));
    lemma_digit_count_push(e, '-');
    lemma_digit_count_push(e.push('-'), digit);
    assert(seq!['-', digit] =~= e.push('-').push(digit));
    lemma_digit_count_push(base, digit);
}

/// An entry holds at most one decimal point however often it is typed.
pub proof fn law_decimal_point_at_most_once(entry: Seq<char>, replace_entry: bool)
    ensures
        decimal_entry(decimal_entry(entry, replace_entry).0, false) == (
            decimal_entry(entry, replace_entry).0,
            false,
        ),
{
    let e = decimal_entry(entry, replace_entry).0;
    if !entry_base(entry, replace_entry).contains('.') {
        assert(e[e.len() - 1] == '.');
    }
}

/// Toggling the sign twice gives the entry back, for every entry that is
/// not a zero and does not start with two minus signs.
pub proof fn law_toggle_sign_twice_restores(entry: Seq<char>)
    requires
        entry != "0"@,
        entry != "0."@,
        entry != "-0"@,
        entry != "-0."@,
        !(entry.len() >= 2 && entry[0] == '-' && entry[1] == '-'),
    ensures
        toggled_entry(entry) is Some,
        toggled_entry(toggled_entry(entry)->0) == Some(entry),
{
    reveal_strlit("0");
    reveal_strlit("0.");
    reveal_strlit("-0");
    reveal_strlit("-0.");
    let t = toggled_entry(entry)->0;
    if entry.len() > 0 && entry[0] == '-' {
        assert(seq!['-'] + entry.drop_first() =~= entry);
        if t == "0"@ {
            assert(entry =~= "-0"@);
        }
        if t == "0."@ {
            assert(entry =~= "-0."@);
        }
    } else {
        assert((seq!['-'] + entry).drop_first() =~= entry);
        assert(t[0] == '-');
        assert(t != "0"@);
        assert(t != "0."@);
    }
}

/// Backspace on an entry being typed removes exactly its last character,
/// unless that leaves nothing or a lone minus, which read as `"0"`; a
/// result about to be replaced reads as `"0"` too. Every other character
/// of the entry stays as it was.
pub proof fn law_backspace_removes_last_character(entry: Seq<char>, replace_entry: bool)
    ensures
        replace_entry ==> backspace_entry(entry, replace_entry) == "0"@,
        !replace_entry && entry.len() >= 2 && entry.subrange(0, entry.len() - 1) != "-"@
            ==> backspace_entry(entry, replace_entry) + seq![entry[entry.len() - 1]] == entry,
        !replace_entry && (entry.len() <= 1 || entry.subrange(0, entry.len() - 1) == "-"@)
            ==> backspace_entry(entry, replace_entry) == "0"@,
{
    if !replace_entry && entry.len() >= 1 {
        assert(entry.drop_last() =~= entry.subrange(0, entry.len() - 1));
        assert(entry.drop_last() + seq![entry[entry.len() - 1]] =~= entry);
        if entry.len() == 1 {
            assert(entry.drop_last().len() == 0);
        }
    }
}

/// Typing a digit into an entry being typed that is neither a lone zero
/// (signed or not) nor full appends exactly that digit; into a result
/// about to be replaced it starts a new entry of that digit alone (a zero
/// stays `"0"`).
pub proof fn law_digit_appends(entry: Seq<char>, replace_entry: bool, digit: char)
    ensures
        !replace_entry && digit_count(entry) < MAX_ENTRY_DIGITS && entry != "0"@ && entry != "-0"@
            ==> digit_entry(entry, replace_entry, digit) == (entry.push(digit), true),
        replace_entry ==> digit_entry(entry, replace_entry, digit) == (
            if digit == '0' { "0"@ } else { seq![digit] },
            true,
        ),
{
    reveal_strlit("0");
    let e = Seq::<char>::empty();
    lemma_digit_count_push(e, '0');
    assert("0"@ =~= e.push('0'));
}

/// Typing the decimal point appends it to an entry that has none and
/// leaves an entry that has one unchanged.
pub proof fn law_decimal_point_appends(entry: Seq<char>)
    ensures
        !entry.contains('.') ==> decimal_entry(entry, false) == (entry.push('.'), true),
        entry.contains('.') ==> decimal_entry(entry, false) == (entry, false),
{
}

} // verus!
