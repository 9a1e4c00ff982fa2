//! The expression compiler: from text to a syntax tree.

use vstd::prelude::*;
use crate::ast::{
    Expr, FileType, PermPrefix, PermSpec, PermTerm, Sign, SizeSpec, SizeSuffix, SymPermOperator,
    SymPermPriv, SymPermStatement, SymPrincipal, Test, TimeSpec, statement_views,
};
use crate::grammar::{
    Keyword, Parse, and_expr, and_rest, argument_test, compile, expr, fields, fields_from,
    file_type, file_type_of, front, id_number, keyword, operator_of, or_rest, perm_spec, perm_term,
    principal_of, privilege_of, program, size_spec, size_suffix, split_perm_prefix, split_sign,
    statement, statements, term, time_spec, unary_expr, unexpected,
};
use crate::text::{
    all_digits, chars_of, digit_of, is_digit, parse_number, parse_unsigned, slice_of, spells,
    texts, tokenize,
};

verus! {

/// Why an expression does not compile.
#[derive(Debug, Clone, PartialEq, Eq)]
pub enum ParseError {
    /// A word that the grammar does not allow where it stands.
    UnexpectedToken { expected: String, found: String },
    /// Text that should be a number and is not, or is too large.
    InvalidNumber(String),
    /// An argument of `-size` of the wrong shape.
    InvalidSizeSpec(String),
}

/// What a [`ParseError`] says.
pub enum ParseErrorView {
    UnexpectedToken { expected: Seq<char>, found: Seq<char> },
    InvalidNumber(Seq<char>),
    InvalidSizeSpec(Seq<char>),
}

impl View for ParseError {
    type V = ParseErrorView;

    open spec fn view(&self) -> ParseErrorView {
        match self {
            ParseError::UnexpectedToken { expected, found } => ParseErrorView::UnexpectedToken {
                expected: expected@,
                found: found@,
            },
            ParseError::InvalidNumber(text) => ParseErrorView::InvalidNumber(text@),
            ParseError::InvalidSizeSpec(text) => ParseErrorView::InvalidSizeSpec(text@),
        }
    }
}

impl ParseErrorView {
    /// The diagnostic in words.
    pub open spec fn message(self) -> Seq<char> {
        match self {
            ParseErrorView::UnexpectedToken { expected, found } => "Expected "@ + expected
                + ", found "@ + found,
            ParseErrorView::InvalidNumber(text) => "Invalid number: "@ + text,
            ParseErrorView::InvalidSizeSpec(text) => "Invalid size: "@ + text,
        }
    }
}

impl ParseError {
    /// The diagnostic in words.
    pub fn to_string(&self) -> (s: String)
        ensures
            s@ == self@.message(),
    {
        match self {
            ParseError::UnexpectedToken { expected, found } => {
                let mut s = String::from_str("Expected ");
                s.append(expected.as_str());
                s.append(", found ");
                s.append(found.as_str());
                s
            },
            ParseError::InvalidNumber(text) => {
                let mut s = String::from_str("Invalid number: ");
                s.append(text.as_str());
                s
            },
            ParseError::InvalidSizeSpec(text) => {
                let mut s = String::from_str("Invalid size: ");
                s.append(text.as_str());
                s
            },
        }
    }
}

/// What a result says: the view of its value, or of its error.
pub open spec fn outcome<T: View, E: View>(r: Result<T, E>) -> Result<T::V, E::V> {
    match r {
        Ok(value) => Ok(value@),
        Err(error) => Err(error@),
    }
}

/// Reads the sign that the argument begins with; the second component is
/// where the rest begins.
fn parse_sign(chars: &Vec<char>) -> (r: (Sign, usize))
    ensures
        r.1 <= chars.len(),
        split_sign(chars@) == (r.0, chars@.skip(r.1 as int)),
{
    assert(chars@.skip(0) =~= chars@);
    if chars.len() > 0 && chars[0] == '+' {
        (Sign::Plus, 1)
    } else if chars.len() > 0 && chars[0] == '-' {
        (Sign::Minus, 1)
    } else {
        (Sign::Exact, 0)
    }
}

/// Whether `chars[from..to]` is a nonempty run of decimal digits.
fn is_digits(chars: &Vec<char>, from: usize, to: usize) -> (yes: bool)
    requires
        from <= to <= chars.len(),
    ensures
        yes == (from < to && all_digits(chars@.subrange(from as int, to as int), 10)),
{
    let ghost digits = chars@.subrange(from as int, to as int);
    let mut i: usize = from;
    while i < to
        invariant
            from <= i <= to <= chars.len(),
            digits == chars@.subrange(from as int, to as int),
            forall|j: int| 0 <= j < i - from ==> is_digit(#[trigger] digits[j], 10),
        decreases to - i,
    {
        if digit_of(chars[i], 10).is_none() {
            assert(!is_digit(digits[i - from], 10));
            return false;
        }
        i = i + 1;
    }
    from < to
}

/// Reads the argument of a time test.
pub fn parse_timespec(arg: &String) -> (r: Result<TimeSpec, ParseError>)
    ensures
        r matches Ok(spec) ==> time_spec(arg@) == Ok::<TimeSpec, ParseErrorView>(spec),
        r matches Err(e) ==> time_spec(arg@) == Err::<TimeSpec, ParseErrorView>(e@),
{
    let chars = chars_of(arg.as_str());
    let (sign, from) = parse_sign(&chars);
    assert(chars@.subrange(from as int, chars.len() as int) =~= chars@.skip(from as int));
    match parse_number(&chars, from, chars.len(), 10, u64::MAX) {
        Some(value) => Ok(TimeSpec { sign, value }),
        None => Err(ParseError::InvalidNumber(slice_of(arg.as_str(), from, chars.len()))),
    }
}

/// Reads a unit letter.
fn parse_size_suffix(c: char) -> (r: Option<SizeSuffix>)
    ensures
        r == size_suffix(c),
{
    if c == 'b' {
        Some(SizeSuffix::Blocks)
    } else if c == 'c' {
        Some(SizeSuffix::Bytes)
    } else if c == 'w' {
        Some(SizeSuffix::Words)
    } else if c == 'k' {
        Some(SizeSuffix::Kb)
    } else if c == 'M' {
        Some(SizeSuffix::Mb)
    } else if c == 'G' {
        Some(SizeSuffix::Gb)
    } else {
        None
    }
}

/// Reads the argument of `-size`.
pub fn parse_sizespec(arg: &String) -> (r: Result<SizeSpec, ParseError>)
    ensures
        r matches Ok(spec) ==> size_spec(arg@) == Ok::<SizeSpec, ParseErrorView>(spec),
        r matches Err(e) ==> size_spec(arg@) == Err::<SizeSpec, ParseErrorView>(e@),
{
    let chars = chars_of(arg.as_str());
    let (sign, from) = parse_sign(&chars);
    let len = chars.len();
    let ghost body = chars@.skip(from as int);
    let suffix = if from < len {
        parse_size_suffix(chars[len - 1])
    } else {
        None
    };
    let to = if suffix.is_some() {
        len - 1
    } else {
        len
    };
    proof {
        if from < len {
            assert(body.last() == chars[len - 1]);
        }
        if suffix is Some {
            assert(body.drop_last() =~= chars@.subrange(from as int, to as int));
        } else {
            assert(body =~= chars@.subrange(from as int, to as int));
        }
    }
    if !is_digits(&chars, from, to) {
        return Err(ParseError::InvalidSizeSpec(arg.clone()));
    }
    match parse_number(&chars, from, to, 10, u64::MAX) {
        Some(value) => Ok(SizeSpec { sign, value, suffix }),
        None => Err(ParseError::InvalidNumber(slice_of(arg.as_str(), from, to))),
    }
}

/// Reads the argument of `-type`.
pub fn parse_filetype(arg: &String) -> (r: Result<FileType, ParseError>)
    ensures
        r matches Ok(kind) ==> file_type(arg@) == Ok::<FileType, ParseErrorView>(kind),
        r matches Err(e) ==> file_type(arg@) == Err::<FileType, ParseErrorView>(e@),
{
    let chars = chars_of(arg.as_str());
    if chars.len() == 1 {
        let c = chars[0];
        let kind = if c == 'b' {
            Some(FileType::BlockFile)
        } else if c == 'c' {
            Some(FileType::CharFile)
        } else if c == 'd' {
            Some(FileType::Directory)
        } else if c == 'p' {
            Some(FileType::NamedPipe)
        } else if c == 'f' {
            Some(FileType::RegularFile)
        } else if c == 'l' {
            Some(FileType::SymbolicLink)
        } else if c == 's' {
            Some(FileType::Socket)
        } else {
            None
        };
        assert(kind == file_type_of(c));
        if let Some(kind) = kind {
            return Ok(kind);
        }
    }
    Err(
        ParseError::UnexpectedToken {
            expected: String::from_str("file type"),
            found: arg.clone(),
        },
    )
}

/// Reads a user or group number.
pub fn parse_id(arg: &String) -> (r: Result<u32, ParseError>)
    ensures
        r matches Ok(id) ==> id_number(arg@) == Ok::<u32, ParseErrorView>(id),
        r matches Err(e) ==> id_number(arg@) == Err::<u32, ParseErrorView>(e@),
{
    let chars = chars_of(arg.as_str());
    match parse_unsigned(&chars, 0xffff_ffff) {
        Some(value) => Ok(value as u32),
        None => Err(ParseError::InvalidNumber(arg.clone())),
    }
}

/// Reads a principal letter.
fn parse_sym_principal(c: char) -> (r: Option<SymPrincipal>)
    ensures
        r == principal_of(c),
{
    if c == 'u' {
        Some(SymPrincipal::User)
    } else if c == 'g' {
        Some(SymPrincipal::Group)
    } else if c == 'o' {
        Some(SymPrincipal::Other)
    } else if c == 'a' {
        Some(SymPrincipal::All)
    } else {
        None
    }
}

/// Reads an operator character.
fn parse_sym_perm_operator(c: char) -> (r: Option<SymPermOperator>)
    ensures
        r == operator_of(c),
{
    if c == '+' {
        Some(SymPermOperator::Add)
    } else if c == '-' {
        Some(SymPermOperator::Remove)
    } else if c == '=' {
        Some(SymPermOperator::Assign)
    } else {
        None
    }
}

/// Reads a privilege letter.
fn parse_sym_perm_priv(c: char) -> (r: Option<SymPermPriv>)
    ensures
        r == privilege_of(c),
{
    if c == 'r' {
        Some(SymPermPriv::Read)
    } else if c == 'w' {
        Some(SymPermPriv::Write)
    } else if c == 'x' {
        Some(SymPermPriv::Execute)
    } else {
        None
    }
}

/// Reads one symbolic statement, such as `u+rw`.
fn parse_sym_perm_term_stmt(field: &Vec<char>) -> (r: Option<SymPermStatement>)
    ensures
        match statement(field@) {
            Some(s) => r matches Some(x) && x@ == s,
            None => r is None,
        },
{
    if field.len() < 2 {
        return None;
    }
    let principal = match parse_sym_principal(field[0]) {
        Some(p) => p,
        None => {
            return None;
        },
    };
    let operator = match parse_sym_perm_operator(field[1]) {
        Some(o) => o,
        None => {
            return None;
        },
    };
    let mut privileges: Vec<SymPermPriv> = Vec::new();
    let mut i: usize = 2;
    assert(privileges@ =~= field@.subrange(2, 2).map_values(|c: char| privilege_of(c)->0));
    while i < field.len()
        invariant
            2 <= i <= field.len(),
            forall|j: int| 2 <= j < i ==> privilege_of(#[trigger] field@[j]) is Some,
            privileges@ == field@.subrange(2, i as int).map_values(|c: char| privilege_of(c)->0),
        decreases field.len() - i,
    {
        match parse_sym_perm_priv(field[i]) {
            Some(p) => {
                privileges.push(p);
                assert(privileges@ =~= field@.subrange(2, i + 1).map_values(
                    |c: char| privilege_of(c)->0,
                ));
            },
            None => {
                return None;
            },
        }
        i = i + 1;
    }
    assert(field@.subrange(2, i as int) =~= field@.skip(2));
    Some(SymPermStatement { principal, operator, privileges })
}

/// The character sequences that a list of vectors holds.
pub open spec fn rows(v: Seq<Vec<char>>) -> Seq<Seq<char>> {
    v.map_values(|row: Vec<char>| row@)
}

/// Splits `chars[from..]` at its commas.
fn split_fields(chars: &Vec<char>, from: usize) -> (r: Vec<Vec<char>>)
    requires
        from <= chars.len(),
    ensures
        rows(r@) == fields(chars@.skip(from as int)),
{
    let mut done: Vec<Vec<char>> = Vec::new();
    let mut current: Vec<char> = Vec::new();
    let mut i: usize = from;
    assert(rows(done@) + fields(chars@.skip(from as int)) =~= fields(chars@.skip(from as int)));
    while i < chars.len()
        invariant
            from <= i <= chars.len(),
            fields(chars@.skip(from as int)) == rows(done@) + fields_from(
                chars@.skip(i as int),
                current@,
            ),
        decreases chars.len() - i,
    {
        let c = chars[i];
        assert(chars@.skip(i as int)[0] == c);
        assert(chars@.skip(i as int).skip(1) =~= chars@.skip(i + 1));
        if c == ',' {
            let ghost before = done@;
            let ghost field = current@;
            done.push(current);
            current = Vec::new();
            assert(rows(done@) =~= rows(before) + seq![field]);
        } else {
            current.push(c);
        }
        i = i + 1;
    }
    let ghost before = done@;
    done.push(current);
    assert(rows(done@) =~= rows(before) + seq![current@]);
    done
}

/// Reads the symbolic statements of `chars[from..]`.
fn parse_sym_perm_term(chars: &Vec<char>, from: usize) -> (r: Option<Vec<SymPermStatement>>)
    requires
        from <= chars.len(),
    ensures
        match statements(chars@.skip(from as int)) {
            Some(list) => r matches Some(v) && statement_views(v@) == list,
            None => r is None,
        },
{
    let parts = split_fields(chars, from);
    let ghost all = fields(chars@.skip(from as int));
    let mut list: Vec<SymPermStatement> = Vec::new();
    let mut i: usize = 0;
    assert(statement_views(list@) =~= all.take(0).map_values(|f: Seq<char>| statement(f)->0));
    while i < parts.len()
        invariant
            i <= parts.len(),
            all == rows(parts@),
            all == fields(chars@.skip(from as int)),
            forall|j: int| 0 <= j < i ==> (#[trigger] statement(all[j])) is Some,
            statement_views(list@) == all.take(i as int).map_values(
                |f: Seq<char>| statement(f)->0,
            ),
        decreases parts.len() - i,
    {
        assert(all[i as int] == parts[i as int]@);
        match parse_sym_perm_term_stmt(&parts[i]) {
            Some(s) => {
                let ghost before = list@;
                list.push(s);
                assert(statement_views(list@) =~= statement_views(before).push(s@));
                assert(statement_views(list@) =~= all.take(i + 1).map_values(
                    |f: Seq<char>| statement(f)->0,
                ));
            },
            None => {
                assert(statement(all[i as int]) is None);
                return None;
            },
        }
        i = i + 1;
    }
    assert(all.take(i as int) =~= all);
    Some(list)
}

/// Reads the prefix that a permission argument begins with; the second
/// component is where the term begins.
fn parse_perm_prefix(chars: &Vec<char>) -> (r: (Option<PermPrefix>, usize))
    ensures
        r.1 <= chars.len(),
        split_perm_prefix(chars@) == (r.0, chars@.skip(r.1 as int)),
{
    assert(chars@.skip(0) =~= chars@);
    if chars.len() > 0 && chars[0] == '-' {
        (Some(PermPrefix::AllMode), 1)
    } else if chars.len() > 0 && chars[0] == '/' {
        (Some(PermPrefix::AnyMode), 1)
    } else {
        (None, 0)
    }
}

/// Reads the term of the permission argument `arg`, which begins at `from`.
fn parse_perm_term(arg: &String, chars: &Vec<char>, from: usize) -> (r: Result<
    PermTerm,
    ParseError,
>)
    requires
        chars@ == arg@,
        from <= chars.len(),
    ensures
        outcome(r) == perm_term(chars@.skip(from as int), arg@),
{
    let len = chars.len();
    assert(chars@.subrange(from as int, len as int) =~= chars@.skip(from as int));
    if from < len && digit_of(chars[from], 10).is_some() {
        match parse_number(chars, from, len, 8, 0xffff_ffff) {
            Some(bits) => Ok(PermTerm::Numeric(bits as u32)),
            None => Err(ParseError::InvalidNumber(slice_of(arg.as_str(), from, len))),
        }
    } else {
        match parse_sym_perm_term(chars, from) {
            Some(list) => Ok(PermTerm::Symbolic(list)),
            None => Err(
                ParseError::UnexpectedToken {
                    expected: String::from_str("permission"),
                    found: arg.clone(),
                },
            ),
        }
    }
}

/// Reads the argument of `-perm`.
pub fn parse_perm_rule(arg: &String) -> (r: Result<PermSpec, ParseError>)
    ensures
        outcome(r) == perm_spec(arg@),
{
    let chars = chars_of(arg.as_str());
    let (prefix, from) = parse_perm_prefix(&chars);
    match parse_perm_term(arg, &chars, from) {
        Ok(term) => Ok(PermSpec { prefix, term }),
        Err(e) => Err(e),
    }
}

/// The keyword that the word spells, if any.
fn keyword_of(word: &Vec<char>) -> (r: Option<Keyword>)
    ensures
        r == keyword(word@),
{
    if spells(word, "-true") {
        Some(Keyword::True)
    } else if spells(word, "-false") {
        Some(Keyword::False)
    } else if spells(word, "-empty") {
        Some(Keyword::Empty)
    } else if spells(word, "-path") {
        Some(Keyword::Path)
    } else if spells(word, "-ipath") {
        Some(Keyword::Ipath)
    } else if spells(word, "-name") {
        Some(Keyword::Name)
    } else if spells(word, "-iname") {
        Some(Keyword::Iname)
    } else if spells(word, "-regex") {
        Some(Keyword::Regex)
    } else if spells(word, "-iregex") {
        Some(Keyword::Iregex)
    } else if spells(word, "-type") {
        Some(Keyword::Type)
    } else if spells(word, "-size") {
        Some(Keyword::Size)
    } else if spells(word, "-amin") {
        Some(Keyword::Amin)
    } else if spells(word, "-atime") {
        Some(Keyword::Atime)
    } else if spells(word, "-cmin") {
        Some(Keyword::Cmin)
    } else if spells(word, "-ctime") {
        Some(Keyword::Ctime)
    } else if spells(word, "-mmin") {
        Some(Keyword::Mmin)
    } else if spells(word, "-mtime") {
        Some(Keyword::Mtime)
    } else if spells(word, "-anewer") {
        Some(Keyword::Anewer)
    } else if spells(word, "-cnewer") {
        Some(Keyword::Cnewer)
    } else if spells(word, "-mnewer") {
        Some(Keyword::Mnewer)
    } else if spells(word, "-newer") {
        Some(Keyword::Newer)
    } else if spells(word, "-user") {
        Some(Keyword::User)
    } else if spells(word, "-group") {
        Some(Keyword::Group)
    } else if spells(word, "-uid") {
        Some(Keyword::Uid)
    } else if spells(word, "-gid") {
        Some(Keyword::Gid)
    } else if spells(word, "-perm") {
        Some(Keyword::Perm)
    } else {
        None
    }
}

/// Whether the token is exactly `word`.
fn is_word(token: &String, word: &str) -> (same: bool)
    ensures
        same == (token@ == word@),
{
    let chars = chars_of(token.as_str());
    spells(&chars, word)
}

/// The diagnostic for a word that is not what the grammar asks for.
fn unexpected_token(expected: &str, found: String) -> (e: ParseError)
    ensures
        e@ == unexpected(expected@, found@),
{
    ParseError::UnexpectedToken { expected: String::from_str(expected), found }
}

/// How the token at `pos` is named in a diagnostic.
fn describe_front(tokens: &Vec<String>, pos: usize) -> (name: String)
    requires
        pos <= tokens.len(),
    ensures
        name@ == front(texts(tokens@).skip(pos as int)),
{
    if pos < tokens.len() {
        tokens[pos].clone()
    } else {
        String::from_str("end of input")
    }
}

/// Whether `r` is the outcome `parse` of reading the tokens from `pos` on:
/// the same construct, ending at a later position with the same words after
/// it, or the same diagnostic.
pub open spec fn reads<T: View>(
    r: Result<(T, usize), ParseError>,
    tokens: Seq<String>,
    pos: usize,
    parse: Parse<T::V>,
) -> bool {
    match parse {
        Ok((value, rest)) => r matches Ok((x, next)) && x@ == value && pos < next <= tokens.len()
            && rest == texts(tokens).skip(next as int),
        Err(e) => r matches Err(x) && x@ == e,
    }
}

/// Makes the test that keyword `k` makes of its argument.
fn parse_argument(k: Keyword, arg: &String) -> (r: Result<Test, ParseError>)
    ensures
        outcome(r) == argument_test(k, arg@),
{
    match k {
        Keyword::True => Ok(Test::True),
        Keyword::False => Ok(Test::False),
        Keyword::Empty => Ok(Test::Empty),
        Keyword::Path => Ok(Test::Path(arg.clone())),
        Keyword::Ipath => Ok(Test::Ipath(arg.clone())),
        Keyword::Name => Ok(Test::Name(arg.clone())),
        Keyword::Iname => Ok(Test::Iname(arg.clone())),
        Keyword::Regex => Ok(Test::Regex(arg.clone())),
        Keyword::Iregex => Ok(Test::Iregex(arg.clone())),
        Keyword::Anewer => Ok(Test::Anewer(arg.clone())),
        Keyword::Cnewer => Ok(Test::Cnewer(arg.clone())),
        Keyword::Mnewer => Ok(Test::Mnewer(arg.clone())),
        Keyword::Newer => Ok(Test::Newer(arg.clone())),
        Keyword::User => Ok(Test::User(arg.clone())),
        Keyword::Group => Ok(Test::Group(arg.clone())),
        Keyword::Type => match parse_filetype(arg) {
            Ok(kind) => Ok(Test::Type(kind)),
            Err(e) => Err(e),
        },
        Keyword::Size => match parse_sizespec(arg) {
            Ok(spec) => Ok(Test::Size(spec)),
            Err(e) => Err(e),
        },
        Keyword::Amin => match parse_timespec(arg) {
            Ok(spec) => Ok(Test::Amin(spec)),
            Err(e) => Err(e),
        },
        Keyword::Atime => match parse_timespec(arg) {
            Ok(spec) => Ok(Test::Atime(spec)),
            Err(e) => Err(e),
        },
        Keyword::Cmin => match parse_timespec(arg) {
            Ok(spec) => Ok(Test::Cmin(spec)),
            Err(e) => Err(e),
        },
        Keyword::Ctime => match parse_timespec(arg) {
            Ok(spec) => Ok(Test::Ctime(spec)),
            Err(e) => Err(e),
        },
        Keyword::Mmin => match parse_timespec(arg) {
            Ok(spec) => Ok(Test::Mmin(spec)),
            Err(e) => Err(e),
        },
        Keyword::Mtime => match parse_timespec(arg) {
            Ok(spec) => Ok(Test::Mtime(spec)),
            Err(e) => Err(e),
        },
        Keyword::Uid => match parse_id(arg) {
            Ok(id) => Ok(Test::Uid(id)),
            Err(e) => Err(e),
        },
        Keyword::Gid => match parse_id(arg) {
            Ok(id) => Ok(Test::Gid(id)),
            Err(e) => Err(e),
        },
        Keyword::Perm => match parse_perm_rule(arg) {
            Ok(spec) => Ok(Test::Perm(spec)),
            Err(e) => Err(e),
        },
    }
}

/// Reads a test at `pos`: a keyword and, for most keywords, its argument.
fn parse_test(tokens: &Vec<String>, pos: usize) -> (r: Result<(Test, usize), ParseError>)
    requires
        pos <= tokens.len(),
    ensures
        reads(r, tokens@, pos, crate::grammar::test(texts(tokens@).skip(pos as int))),
{
    let ghost ts = texts(tokens@).skip(pos as int);
    if pos >= tokens.len() {
        return Err(unexpected_token("test", describe_front(tokens, pos)));
    }
    let word = &tokens[pos];
    assert(ts[0] == word@);
    assert(ts.skip(1) =~= texts(tokens@).skip(pos + 1));
    let chars = chars_of(word.as_str());
    let k = match keyword_of(&chars) {
        Some(k) => k,
        None => {
            return Err(unexpected_token("test", word.clone()));
        },
    };
    match k {
        Keyword::True => {
            return Ok((Test::True, pos + 1));
        },
        Keyword::False => {
            return Ok((Test::False, pos + 1));
        },
        Keyword::Empty => {
            return Ok((Test::Empty, pos + 1));
        },
        _ => {},
    }
    if pos + 1 >= tokens.len() {
        return Err(unexpected_token("argument", describe_front(tokens, pos + 1)));
    }
    let arg = &tokens[pos + 1];
    assert(ts[1] == arg@);
    assert(ts.skip(2) =~= texts(tokens@).skip(pos + 2));
    match parse_argument(k, arg) {
        Ok(t) => Ok((t, pos + 2)),
        Err(e) => Err(e),
    }
}

/// Reads a term at `pos`: a test, or an expression in parentheses.
fn parse_term(tokens: &Vec<String>, pos: usize) -> (r: Result<(Expr, usize), ParseError>)
    requires
        pos <= tokens.len(),
    ensures
        reads(r, tokens@, pos, term(texts(tokens@).skip(pos as int))),
    decreases tokens.len() - pos, 0nat,
{
    let ghost ts = texts(tokens@).skip(pos as int);
    if pos < tokens.len() && is_word(&tokens[pos], "(") {
        assert(ts[0] == tokens[pos as int]@);
        assert(ts.skip(1) =~= texts(tokens@).skip(pos + 1));
        match parse_expr(tokens, pos + 1) {
            Ok((inner, next)) => {
                let ghost rest = texts(tokens@).skip(next as int);
                if next < tokens.len() && is_word(&tokens[next], ")") {
                    assert(rest[0] == tokens[next as int]@);
                    assert(rest.skip(1) =~= texts(tokens@).skip(next + 1));
                    Ok((inner, next + 1))
                } else {
                    proof {
                        if next < tokens.len() {
                            assert(rest[0] == tokens[next as int]@);
                        }
                    }
                    Err(unexpected_token(")", describe_front(tokens, next)))
                }
            },
            Err(e) => Err(e),
        }
    } else {
        proof {
            if pos < tokens.len() {
                assert(ts[0] == tokens[pos as int]@);
            }
        }
        match parse_test(tokens, pos) {
            Ok((t, next)) => Ok((Expr::Test(t), next)),
            Err(e) => Err(e),
        }
    }
}

/// Reads a term at `pos`, with or without a negation before it.
fn parse_unary_expr(tokens: &Vec<String>, pos: usize) -> (r: Result<(Expr, usize), ParseError>)
    requires
        pos <= tokens.len(),
    ensures
        reads(r, tokens@, pos, unary_expr(texts(tokens@).skip(pos as int))),
    decreases tokens.len() - pos, 1nat,
{
    let ghost ts = texts(tokens@).skip(pos as int);
    if pos < tokens.len() && (is_word(&tokens[pos], "-not") || is_word(&tokens[pos], "!")) {
        assert(ts[0] == tokens[pos as int]@);
        assert(ts.skip(1) =~= texts(tokens@).skip(pos + 1));
        match parse_term(tokens, pos + 1) {
            Ok((operand, next)) => Ok((Expr::Not(Box::new(operand)), next)),
            Err(e) => Err(e),
        }
    } else {
        proof {
            if pos < tokens.len() {
                assert(ts[0] == tokens[pos as int]@);
            }
        }
        parse_term(tokens, pos)
    }
}

/// Reads a conjunction at `pos`: operands joined by `-and` or by nothing,
/// folded to the left.
fn parse_and_expr(tokens: &Vec<String>, pos: usize) -> (r: Result<(Expr, usize), ParseError>)
    requires
        pos <= tokens.len(),
    ensures
        reads(r, tokens@, pos, and_expr(texts(tokens@).skip(pos as int))),
    decreases tokens.len() - pos, 3nat,
{
    let ghost all = texts(tokens@);
    let (mut left, mut at) = match parse_unary_expr(tokens, pos) {
        Ok(read) => read,
        Err(e) => {
            return Err(e);
        },
    };
    loop
        invariant
            pos < at <= tokens.len(),
            all == texts(tokens@),
            and_expr(all.skip(pos as int)) == and_rest(left@, all.skip(at as int)),
        decreases tokens.len() - at,
    {
        let ghost ts = all.skip(at as int);
        proof {
            if at < tokens.len() {
                assert(ts[0] == tokens[at as int]@);
                assert(ts.skip(1) =~= all.skip(at + 1));
            }
        }
        if at >= tokens.len() || is_word(&tokens[at], "-or") || is_word(&tokens[at], ")") {
            return Ok((left, at));
        }
        let start = if is_word(&tokens[at], "-and") {
            at + 1
        } else {
            at
        };
        match parse_unary_expr(tokens, start) {
            Ok((right, next)) => {
                left = Expr::And(Box::new(left), Box::new(right));
                at = next;
            },
            Err(e) => {
                return Err(e);
            },
        }
    }
}

/// Reads a disjunction at `pos`: conjunctions joined by `-or`, folded to the
/// left.
fn parse_or_expr(tokens: &Vec<String>, pos: usize) -> (r: Result<(Expr, usize), ParseError>)
    requires
        pos <= tokens.len(),
    ensures
        reads(r, tokens@, pos, expr(texts(tokens@).skip(pos as int))),
    decreases tokens.len() - pos, 5nat,
{
    let ghost all = texts(tokens@);
    let (mut left, mut at) = match parse_and_expr(tokens, pos) {
        Ok(read) => read,
        Err(e) => {
            return Err(e);
        },
    };
    loop
        invariant
            pos < at <= tokens.len(),
            all == texts(tokens@),
            expr(all.skip(pos as int)) == or_rest(left@, all.skip(at as int)),
        decreases tokens.len() - at,
    {
        let ghost ts = all.skip(at as int);
        proof {
            if at < tokens.len() {
                assert(ts[0] == tokens[at as int]@);
                assert(ts.skip(1) =~= all.skip(at + 1));
            }
        }
        if at >= tokens.len() || !is_word(&tokens[at], "-or") {
            return Ok((left, at));
        }
        match parse_and_expr(tokens, at + 1) {
            Ok((right, next)) => {
                left = Expr::Or(Box::new(left), Box::new(right));
                at = next;
            },
            Err(e) => {
                return Err(e);
            },
        }
    }
}

/// Reads an expression at `pos`.
fn parse_expr(tokens: &Vec<String>, pos: usize) -> (r: Result<(Expr, usize), ParseError>)
    requires
        pos <= tokens.len(),
    ensures
        reads(r, tokens@, pos, expr(texts(tokens@).skip(pos as int))),
    decreases tokens.len() - pos, 6nat,
{
    parse_or_expr(tokens, pos)
}

/// Compiles the words of an expression. No words make the test that holds of
/// every entry.
pub fn parse_tokens(tokens: &Vec<String>) -> (r: Result<Expr, ParseError>)
    ensures
        outcome(r) == program(texts(tokens@)),
{
    if tokens.len() == 0 {
        return Ok(Expr::Test(Test::True));
    }
    assert(texts(tokens@).skip(0) =~= texts(tokens@));
    match parse_expr(tokens, 0) {
        Ok((e, next)) => {
            if next == tokens.len() {
                Ok(e)
            } else {
                assert(texts(tokens@).skip(next as int)[0] == tokens[next as int]@);
                Err(unexpected_token("end of input", tokens[next].clone()))
            }
        },
        Err(e) => Err(e),
    }
}

/// Compiles the text of an expression: splits it into words and reads them
/// by the grammar.
pub fn parse_to_ast(input: &str) -> (r: Result<Expr, ParseError>)
    ensures
        outcome(r) == compile(input@),
{
    let tokens = tokenize(input);
    parse_tokens(&tokens)
}

} // verus!
