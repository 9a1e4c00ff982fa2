//! The grammar of selection expressions, as functions from words to syntax.
//!
//! ```text
//! Program   := Expr
//! Expr      := OrExpr
//! OrExpr    := AndExpr ( "-or" AndExpr )*
//! AndExpr   := UnaryExpr ( ["-and"] UnaryExpr )*
//! UnaryExpr := ("-not" | "!")? Term
//! Term      := Test | "(" Expr ")"
//! ```
//!
//! Each function reads one construct from the front of a list of words and
//! gives the construct with the words that follow it, or the diagnostic.

use vstd::prelude::*;
use crate::ast::{
    ExprView, FileType, PermPrefix, PermSpecView, PermTermView, Sign, SizeSpec, SizeSuffix,
    SymPermOperator, SymPermPriv, SymPermStatementView, SymPrincipal, TestView, TimeSpec,
};
use crate::parser::ParseErrorView;
use crate::text::{all_digits, digits_value, is_digit, number, unsigned, words};

verus! {

/// The outcome of reading a construct: the construct and the words after it.
pub type Parse<T> = Result<(T, Seq<Seq<char>>), ParseErrorView>;

/// The words that begin a test.
#[derive(Debug, Clone, Copy, PartialEq, Eq)]
pub enum Keyword {
    True,
    False,
    Empty,
    Path,
    Ipath,
    Name,
    Iname,
    Regex,
    Iregex,
    Type,
    Size,
    Amin,
    Atime,
    Cmin,
    Ctime,
    Mmin,
    Mtime,
    Anewer,
    Cnewer,
    Mnewer,
    Newer,
    User,
    Group,
    Uid,
    Gid,
    Perm,
}

/// The keyword that `word` spells, if any.
pub open spec fn keyword(word: Seq<char>) -> Option<Keyword> {
    if word == "-true"@ {
        Some(Keyword::True)
    } else if word == "-false"@ {
        Some(Keyword::False)
    } else if word == "-empty"@ {
        Some(Keyword::Empty)
    } else if word == "-path"@ {
        Some(Keyword::Path)
    } else if word == "-ipath"@ {
        Some(Keyword::Ipath)
    } else if word == "-name"@ {
        Some(Keyword::Name)
    } else if word == "-iname"@ {
        Some(Keyword::Iname)
    } else if word == "-regex"@ {
        Some(Keyword::Regex)
    } else if word == "-iregex"@ {
        Some(Keyword::Iregex)
    } else if word == "-type"@ {
        Some(Keyword::Type)
    } else if word == "-size"@ {
        Some(Keyword::Size)
    } else if word == "-amin"@ {
        Some(Keyword::Amin)
    } else if word == "-atime"@ {
        Some(Keyword::Atime)
    } else if word == "-cmin"@ {
        Some(Keyword::Cmin)
    } else if word == "-ctime"@ {
        Some(Keyword::Ctime)
    } else if word == "-mmin"@ {
        Some(Keyword::Mmin)
    } else if word == "-mtime"@ {
        Some(Keyword::Mtime)
    } else if word == "-anewer"@ {
        Some(Keyword::Anewer)
    } else if word == "-cnewer"@ {
        Some(Keyword::Cnewer)
    } else if word == "-mnewer"@ {
        Some(Keyword::Mnewer)
    } else if word == "-newer"@ {
        Some(Keyword::Newer)
    } else if word == "-user"@ {
        Some(Keyword::User)
    } else if word == "-group"@ {
        Some(Keyword::Group)
    } else if word == "-uid"@ {
        Some(Keyword::Uid)
    } else if word == "-gid"@ {
        Some(Keyword::Gid)
    } else if word == "-perm"@ {
        Some(Keyword::Perm)
    } else {
        None
    }
}

/// The diagnostic for a word that is not what the grammar asks for.
pub open spec fn unexpected(expected: Seq<char>, found: Seq<char>) -> ParseErrorView {
    ParseErrorView::UnexpectedToken { expected, found }
}

/// How the word at the front of `ts` is named in a diagnostic.
pub open spec fn front(ts: Seq<Seq<char>>) -> Seq<char> {
    if ts.len() > 0 {
        ts[0]
    } else {
        "end of input"@
    }
}

/// The sign that `arg` begins with, and what follows it.
pub open spec fn split_sign(arg: Seq<char>) -> (Sign, Seq<char>) {
    if arg.len() > 0 && arg[0] == '+' {
        (Sign::Plus, arg.skip(1))
    } else if arg.len() > 0 && arg[0] == '-' {
        (Sign::Minus, arg.skip(1))
    } else {
        (Sign::Exact, arg)
    }
}

/// The argument of a time test: a sign, if any, and a number.
pub open spec fn time_spec(arg: Seq<char>) -> Result<TimeSpec, ParseErrorView> {
    let (sign, digits) = split_sign(arg);
    match number(digits, 10, u64::MAX as nat) {
        Some(n) => Ok(TimeSpec { sign, value: n as u64 }),
        None => Err(ParseErrorView::InvalidNumber(digits)),
    }
}

/// The unit that a letter stands for.
pub open spec fn size_suffix(c: char) -> Option<SizeSuffix> {
    if c == 'b' {
        Some(SizeSuffix::Blocks)
    } else if c == 'c' {
        Some(SizeSuffix::Bytes)
    } else if c == 'w' {
        Some(SizeSuffix::Words)
    } else if c == 'k' {
        Some(SizeSuffix::Kb)
    } else if c == 'M' {
        Some(SizeSuffix::Mb)
    } else if c == 'G' {
        Some(SizeSuffix::Gb)
    } else {
        None
    }
}

/// The unit that `body` ends with, if any.
pub open spec fn trailing_suffix(body: Seq<char>) -> Option<SizeSuffix> {
    if body.len() > 0 {
        size_suffix(body.last())
    } else {
        None
    }
}

/// The argument of `-size`: a sign, if any, a number, and a unit, if any.
/// An argument of another shape is an invalid size; a number too large for
/// 64 bits is an invalid number.
pub open spec fn size_spec(arg: Seq<char>) -> Result<SizeSpec, ParseErrorView> {
    let (sign, body) = split_sign(arg);
    let suffix = trailing_suffix(body);
    let digits = if suffix is Some {
        body.drop_last()
    } else {
        body
    };
    if digits.len() == 0 || !all_digits(digits, 10) {
        Err(ParseErrorView::InvalidSizeSpec(arg))
    } else if digits_value(digits, 10) > u64::MAX {
        Err(ParseErrorView::InvalidNumber(digits))
    } else {
        Ok(SizeSpec { sign, value: digits_value(digits, 10) as u64, suffix })
    }
}

/// The kind of entry that a letter stands for.
pub open spec fn file_type_of(c: char) -> Option<FileType> {
    if c == 'b' {
        Some(FileType::BlockFile)
    } else if c == 'c' {
        Some(FileType::CharFile)
    } else if c == 'd' {
        Some(FileType::Directory)
    } else if c == 'p' {
        Some(FileType::NamedPipe)
    } else if c == 'f' {
        Some(FileType::RegularFile)
    } else if c == 'l' {
        Some(FileType::SymbolicLink)
    } else if c == 's' {
        Some(FileType::Socket)
    } else {
        None
    }
}

/// The argument of `-type`: one letter.
pub open spec fn file_type(arg: Seq<char>) -> Result<FileType, ParseErrorView> {
    if arg.len() == 1 && file_type_of(arg[0]) is Some {
        Ok(file_type_of(arg[0])->0)
    } else {
        Err(unexpected("file type"@, arg))
    }
}

/// The principal that a letter stands for.
pub open spec fn principal_of(c: char) -> Option<SymPrincipal> {
    if c == 'u' {
        Some(SymPrincipal::User)
    } else if c == 'g' {
        Some(SymPrincipal::Group)
    } else if c == 'o' {
        Some(SymPrincipal::Other)
    } else if c == 'a' {
        Some(SymPrincipal::All)
    } else {
        None
    }
}

/// The operator that a character stands for.
pub open spec fn operator_of(c: char) -> Option<SymPermOperator> {
    if c == '+' {
        Some(SymPermOperator::Add)
    } else if c == '-' {
        Some(SymPermOperator::Remove)
    } else if c == '=' {
        Some(SymPermOperator::Assign)
    } else {
        None
    }
}

/// The privilege that a letter stands for.
pub open spec fn privilege_of(c: char) -> Option<SymPermPriv> {
    if c == 'r' {
        Some(SymPermPriv::Read)
    } else if c == 'w' {
        Some(SymPermPriv::Write)
    } else if c == 'x' {
        Some(SymPermPriv::Execute)
    } else {
        None
    }
}

/// One symbolic statement: a principal, an operator, and privileges.
pub open spec fn statement(field: Seq<char>) -> Option<SymPermStatementView> {
    if field.len() >= 2 && principal_of(field[0]) is Some && operator_of(field[1]) is Some
        && (forall|i: int| 2 <= i < field.len() ==> privilege_of(#[trigger] field[i]) is Some) {
        Some(
            SymPermStatementView {
                principal: principal_of(field[0])->0,
                operator: operator_of(field[1])->0,
                privileges: field.skip(2).map_values(|c: char| privilege_of(c)->0),
            },
        )
    } else {
        None
    }
}

/// The fields of `s` between commas, when `current` holds the characters of
/// the field that is being read.
pub open spec fn fields_from(s: Seq<char>, current: Seq<char>) -> Seq<Seq<char>>
    decreases s.len(),
{
    if s.len() == 0 {
        seq![current]
    } else if s[0] == ',' {
        seq![current] + fields_from(s.skip(1), Seq::empty())
    } else {
        fields_from(s.skip(1), current.push(s[0]))
    }
}

/// The fields of `s` between commas; there is always at least one.
pub open spec fn fields(s: Seq<char>) -> Seq<Seq<char>> {
    fields_from(s, Seq::empty())
}

/// The prefix that `arg` begins with, and what follows it.
pub open spec fn split_perm_prefix(arg: Seq<char>) -> (Option<PermPrefix>, Seq<char>) {
    if arg.len() > 0 && arg[0] == '-' {
        (Some(PermPrefix::AllMode), arg.skip(1))
    } else if arg.len() > 0 && arg[0] == '/' {
        (Some(PermPrefix::AnyMode), arg.skip(1))
    } else {
        (None, arg)
    }
}

/// The statements that `term` lists between commas, if each is one.
pub open spec fn statements(term: Seq<char>) -> Option<Seq<SymPermStatementView>> {
    let parts = fields(term);
    if forall|i: int| 0 <= i < parts.len() ==> (#[trigger] statement(parts[i])) is Some {
        Some(parts.map_values(|f: Seq<char>| statement(f)->0))
    } else {
        None
    }
}

/// The bits of a permission argument `arg` after its prefix. A term that
/// begins with a digit is an octal number; any other is a list of symbolic
/// statements.
pub open spec fn perm_term(term: Seq<char>, arg: Seq<char>) -> Result<
    PermTermView,
    ParseErrorView,
> {
    if term.len() > 0 && is_digit(term[0], 10) {
        match number(term, 8, u32::MAX as nat) {
            Some(n) => Ok(PermTermView::Numeric(n as u32)),
            None => Err(ParseErrorView::InvalidNumber(term)),
        }
    } else {
        match statements(term) {
            Some(list) => Ok(PermTermView::Symbolic(list)),
            None => Err(unexpected("permission"@, arg)),
        }
    }
}

/// The argument of `-perm`: a prefix, if any, and a term.
pub open spec fn perm_spec(arg: Seq<char>) -> Result<PermSpecView, ParseErrorView> {
    let (prefix, term) = split_perm_prefix(arg);
    match perm_term(term, arg) {
        Ok(term) => Ok(PermSpecView { prefix, term }),
        Err(e) => Err(e),
    }
}

/// A user or group number: an unsigned integer that fits 32 bits.
pub open spec fn id_number(arg: Seq<char>) -> Result<u32, ParseErrorView> {
    match unsigned(arg, u32::MAX as nat) {
        Some(n) => Ok(n as u32),
        None => Err(ParseErrorView::InvalidNumber(arg)),
    }
}

/// The test that a keyword without an argument stands for.
pub open spec fn constant_test(k: Keyword) -> Option<TestView> {
    match k {
        Keyword::True => Some(TestView::True),
        Keyword::False => Some(TestView::False),
        Keyword::Empty => Some(TestView::Empty),
        _ => None,
    }
}

/// The test that a keyword makes of its argument.
pub open spec fn argument_test(k: Keyword, arg: Seq<char>) -> Result<TestView, ParseErrorView> {
    match k {
        Keyword::True => Ok(TestView::True),
        Keyword::False => Ok(TestView::False),
        Keyword::Empty => Ok(TestView::Empty),
        Keyword::Path => Ok(TestView::Path(arg)),
        Keyword::Ipath => Ok(TestView::Ipath(arg)),
        Keyword::Name => Ok(TestView::Name(arg)),
        Keyword::Iname => Ok(TestView::Iname(arg)),
        Keyword::Regex => Ok(TestView::Regex(arg)),
        Keyword::Iregex => Ok(TestView::Iregex(arg)),
        Keyword::Anewer => Ok(TestView::Anewer(arg)),
        Keyword::Cnewer => Ok(TestView::Cnewer(arg)),
        Keyword::Mnewer => Ok(TestView::Mnewer(arg)),
        Keyword::Newer => Ok(TestView::Newer(arg)),
        Keyword::User => Ok(TestView::User(arg)),
        Keyword::Group => Ok(TestView::Group(arg)),
        Keyword::Type => match file_type(arg) {
            Ok(t) => Ok(TestView::Type(t)),
            Err(e) => Err(e),
        },
        Keyword::Size => match size_spec(arg) {
            Ok(s) => Ok(TestView::Size(s)),
            Err(e) => Err(e),
        },
        Keyword::Amin => match time_spec(arg) {
            Ok(t) => Ok(TestView::Amin(t)),
            Err(e) => Err(e),
        },
        Keyword::Atime => match time_spec(arg) {
            Ok(t) => Ok(TestView::Atime(t)),
            Err(e) => Err(e),
        },
        Keyword::Cmin => match time_spec(arg) {
            Ok(t) => Ok(TestView::Cmin(t)),
            Err(e) => Err(e),
        },
        Keyword::Ctime => match time_spec(arg) {
            Ok(t) => Ok(TestView::Ctime(t)),
            Err(e) => Err(e),
        },
        Keyword::Mmin => match time_spec(arg) {
            Ok(t) => Ok(TestView::Mmin(t)),
            Err(e) => Err(e),
        },
        Keyword::Mtime => match time_spec(arg) {
            Ok(t) => Ok(TestView::Mtime(t)),
            Err(e) => Err(e),
        },
        Keyword::Uid => match id_number(arg) {
            Ok(n) => Ok(TestView::Uid(n)),
            Err(e) => Err(e),
        },
        Keyword::Gid => match id_number(arg) {
            Ok(n) => Ok(TestView::Gid(n)),
            Err(e) => Err(e),
        },
        Keyword::Perm => match perm_spec(arg) {
            Ok(p) => Ok(TestView::Perm(p)),
            Err(e) => Err(e),
        },
    }
}

/// A test: a keyword and, for all but three keywords, the word after it as
/// its argument, whatever that word is.
pub open spec fn test(ts: Seq<Seq<char>>) -> Parse<TestView> {
    if ts.len() == 0 {
        Err(unexpected("test"@, front(ts)))
    } else {
        match keyword(ts[0]) {
            None => Err(unexpected("test"@, ts[0])),
            Some(k) => match constant_test(k) {
                Some(t) => Ok((t, ts.skip(1))),
                None => if ts.len() < 2 {
                    Err(unexpected("argument"@, front(ts.skip(1))))
                } else {
                    match argument_test(k, ts[1]) {
                        Ok(t) => Ok((t, ts.skip(2))),
                        Err(e) => Err(e),
                    }
                },
            },
        }
    }
}

/// Whether `word` is the negation operator.
pub open spec fn is_not(word: Seq<char>) -> bool {
    word == "-not"@ || word == "!"@
}

/// Whether `word` is the conjunction operator.
pub open spec fn is_and(word: Seq<char>) -> bool {
    word == "-and"@
}

/// Whether `word` is the disjunction operator.
pub open spec fn is_or(word: Seq<char>) -> bool {
    word == "-or"@
}

/// Whether `word` opens a group.
pub open spec fn is_open(word: Seq<char>) -> bool {
    word == "("@
}

/// Whether `word` closes a group.
pub open spec fn is_close(word: Seq<char>) -> bool {
    word == ")"@
}

/// Whether a conjunction goes on at the front of `ts`: with `-and`, or with
/// the next operand directly. It ends at the end of the words, at `-or` and
/// at `)`.
pub open spec fn and_continues(ts: Seq<Seq<char>>) -> bool {
    ts.len() > 0 && !is_or(ts[0]) && !is_close(ts[0])
}

/// `Term := Test | "(" Expr ")"`
pub open spec fn term(ts: Seq<Seq<char>>) -> Parse<ExprView>
    decreases ts.len(), 0nat,
{
    if ts.len() > 0 && is_open(ts[0]) {
        match expr(ts.skip(1)) {
            Ok((inner, rest)) => if rest.len() > 0 && is_close(rest[0]) {
                Ok((inner, rest.skip(1)))
            } else {
                Err(unexpected(")"@, front(rest)))
            },
            Err(e) => Err(e),
        }
    } else {
        match test(ts) {
            Ok((t, rest)) => Ok((ExprView::Test(t), rest)),
            Err(e) => Err(e),
        }
    }
}

/// `UnaryExpr := ("-not" | "!")? Term`
pub open spec fn unary_expr(ts: Seq<Seq<char>>) -> Parse<ExprView>
    decreases ts.len(), 1nat,
{
    if ts.len() > 0 && is_not(ts[0]) {
        match term(ts.skip(1)) {
            Ok((operand, rest)) => Ok((ExprView::Not(Box::new(operand)), rest)),
            Err(e) => Err(e),
        }
    } else {
        term(ts)
    }
}

/// The rest of a conjunction whose operands so far make `left`:
/// `( ["-and"] UnaryExpr )*`, folded to the left.
///
/// An operand is never read from no words (see [`lemma_unary_expr_advances`]),
/// so the test on the number of words left always holds.
pub open spec fn and_rest(left: ExprView, ts: Seq<Seq<char>>) -> Parse<ExprView>
    decreases ts.len(), 2nat,
{
    if !and_continues(ts) {
        Ok((left, ts))
    } else {
        let operand = if is_and(ts[0]) {
            unary_expr(ts.skip(1))
        } else {
            unary_expr(ts)
        };
        match operand {
            Ok((right, rest)) => if rest.len() < ts.len() {
                and_rest(ExprView::And(Box::new(left), Box::new(right)), rest)
            } else {
                Ok((left, ts))
            },
            Err(e) => Err(e),
        }
    }
}

/// `AndExpr := UnaryExpr ( ["-and"] UnaryExpr )*`
pub open spec fn and_expr(ts: Seq<Seq<char>>) -> Parse<ExprView>
    decreases ts.len(), 3nat,
{
    match unary_expr(ts) {
        Ok((left, rest)) => if rest.len() < ts.len() {
            and_rest(left, rest)
        } else {
            Ok((left, rest))
        },
        Err(e) => Err(e),
    }
}

/// The rest of a disjunction whose operands so far make `left`:
/// `( "-or" AndExpr )*`, folded to the left.
pub open spec fn or_rest(left: ExprView, ts: Seq<Seq<char>>) -> Parse<ExprView>
    decreases ts.len(), 4nat,
{
    if ts.len() > 0 && is_or(ts[0]) {
        match and_expr(ts.skip(1)) {
            Ok((right, rest)) => if rest.len() < ts.len() {
                or_rest(ExprView::Or(Box::new(left), Box::new(right)), rest)
            } else {
                Ok((left, ts))
            },
            Err(e) => Err(e),
        }
    } else {
        Ok((left, ts))
    }
}

/// `Expr := OrExpr`, and `OrExpr := AndExpr ( "-or" AndExpr )*`
pub open spec fn expr(ts: Seq<Seq<char>>) -> Parse<ExprView>
    decreases ts.len(), 5nat,
{
    match and_expr(ts) {
        Ok((left, rest)) => if rest.len() < ts.len() {
            or_rest(left, rest)
        } else {
            Ok((left, rest))
        },
        Err(e) => Err(e),
    }
}

/// `Program := Expr`, with nothing after it. No words at all select every
/// entry.
pub open spec fn program(ts: Seq<Seq<char>>) -> Result<ExprView, ParseErrorView> {
    if ts.len() == 0 {
        Ok(ExprView::Test(TestView::True))
    } else {
        match expr(ts) {
            Ok((e, rest)) => if rest.len() == 0 {
                Ok(e)
            } else {
                Err(unexpected("end of input"@, rest[0]))
            },
            Err(e) => Err(e),
        }
    }
}

/// The expression that `text` spells.
pub open spec fn compile(text: Seq<char>) -> Result<ExprView, ParseErrorView> {
    program(words(text))
}

/// A test takes at least one word.
pub proof fn lemma_test_advances(ts: Seq<Seq<char>>)
    ensures
        test(ts) matches Ok((_, rest)) ==> rest.len() < ts.len(),
{
}

/// A term takes at least one word.
pub proof fn lemma_term_advances(ts: Seq<Seq<char>>)
    ensures
        term(ts) matches Ok((_, rest)) ==> rest.len() < ts.len(),
    decreases ts.len(), 0nat,
{
    if ts.len() > 0 && is_open(ts[0]) {
        lemma_expr_advances(ts.skip(1));
    } else {
        lemma_test_advances(ts);
    }
}

/// An operand of a conjunction takes at least one word.
pub proof fn lemma_unary_expr_advances(ts: Seq<Seq<char>>)
    ensures
        unary_expr(ts) matches Ok((_, rest)) ==> rest.len() < ts.len(),
    decreases ts.len(), 1nat,
{
    if ts.len() > 0 && is_not(ts[0]) {
        lemma_term_advances(ts.skip(1));
    } else {
        lemma_term_advances(ts);
    }
}

/// The rest of a conjunction leaves no more words than it was given.
pub proof fn lemma_and_rest_shrinks(left: ExprView, ts: Seq<Seq<char>>)
    ensures
        and_rest(left, ts) matches Ok((_, rest)) ==> rest.len() <= ts.len(),
    decreases ts.len(), 2nat,
{
    if and_continues(ts) {
        let operand = if is_and(ts[0]) {
            unary_expr(ts.skip(1))
        } else {
            unary_expr(ts)
        };
        if let Ok((right, rest)) = operand {
            if rest.len() < ts.len() {
                lemma_and_rest_shrinks(ExprView::And(Box::new(left), Box::new(right)), rest);
            }
        }
    }
}

/// A conjunction takes at least one word.
pub proof fn lemma_and_expr_advances(ts: Seq<Seq<char>>)
    ensures
        and_expr(ts) matches Ok((_, rest)) ==> rest.len() < ts.len(),
    decreases ts.len(), 3nat,
{
    lemma_unary_expr_advances(ts);
    if let Ok((left, rest)) = unary_expr(ts) {
        lemma_and_rest_shrinks(left, rest);
    }
}

/// The rest of a disjunction leaves no more words than it was given.
pub proof fn lemma_or_rest_shrinks(left: ExprView, ts: Seq<Seq<char>>)
    ensures
        or_rest(left, ts) matches Ok((_, rest)) ==> rest.len() <= ts.len(),
    decreases ts.len(), 4nat,
{
    if ts.len() > 0 && is_or(ts[0]) {
        if let Ok((right, rest)) = and_expr(ts.skip(1)) {
            if rest.len() < ts.len() {
                lemma_or_rest_shrinks(ExprView::Or(Box::new(left), Box::new(right)), rest);
            }
        }
    }
}

/// An expression takes at least one word.
pub proof fn lemma_expr_advances(ts: Seq<Seq<char>>)
    ensures
        expr(ts) matches Ok((_, rest)) ==> rest.len() < ts.len(),
    decreases ts.len(), 5nat,
{
    lemma_and_expr_advances(ts);
    if let Ok((left, rest)) = and_expr(ts) {
        lemma_or_rest_shrinks(left, rest);
    }
}

} // verus!
