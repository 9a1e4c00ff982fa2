//! The syntax tree of a selection expression, and the mathematical view of
//! each of its types.

use vstd::prelude::*;

verus! {

/// A selection expression: tests joined by `not`, `and` and `or`.
#[derive(Debug, PartialEq, Eq)]
pub enum Expr {
    /// Negation of the operand.
    Not(Box<Expr>),
    /// Conjunction; the right operand is consulted only if the left holds.
    And(Box<Expr>, Box<Expr>),
    /// Disjunction; the right operand is consulted only if the left fails.
    Or(Box<Expr>, Box<Expr>),
    /// A single test.
    Test(Test),
}

/// A test of one entry.
#[derive(Debug, PartialEq, Eq)]
pub enum Test {
    /// The whole path matches the glob pattern.
    Path(String),
    /// The bare file name matches the glob pattern.
    Name(String),
    /// As `Name`, ignoring case.
    Iname(String),
    /// The whole path matches the regular expression.
    Regex(String),
    /// Holds of every entry.
    True,
    /// Holds of no entry.
    False,
    /// The entry is of the given kind.
    Type(FileType),
    /// The entry's length compares as specified.
    Size(SizeSpec),
    /// The entry's length is zero.
    Empty,
    /// Minutes since last access.
    Amin(TimeSpec),
    /// Days since last access.
    Atime(TimeSpec),
    /// Days since creation.
    Ctime(TimeSpec),
    /// Minutes since creation.
    Cmin(TimeSpec),
    /// Minutes since last modification.
    Mmin(TimeSpec),
    /// Days since last modification.
    Mtime(TimeSpec),
    /// Accessed later than the reference file was.
    Anewer(String),
    /// Created later than the reference file was.
    Cnewer(String),
    /// Modified later than the reference file was.
    Mnewer(String),
    /// The same test as `Mnewer`.
    Newer(String),
    /// As `Path`, ignoring case.
    Ipath(String),
    /// As `Regex`, ignoring case.
    Iregex(String),
    /// Owned by the user, given by number or by name.
    User(String),
    /// Owned by the group, given by number or by name.
    Group(String),
    /// Owned by the user with this number.
    Uid(u32),
    /// Owned by the group with this number.
    Gid(u32),
    /// The permission bits compare as specified.
    Perm(PermSpec),
}

/// The kinds of entry that `-type` tells apart.
#[derive(Debug, Clone, Copy, PartialEq, Eq)]
pub enum FileType {
    /// Block device.
    BlockFile,
    /// Character device.
    CharFile,
    /// Directory.
    Directory,
    /// Named pipe.
    NamedPipe,
    /// Regular file.
    RegularFile,
    /// Symbolic link.
    SymbolicLink,
    /// Socket.
    Socket,
}

/// How a measured quantity is compared with the number given.
#[derive(Debug, Clone, Copy, PartialEq, Eq)]
pub enum Sign {
    /// Equal to the number (no sign is written).
    Exact,
    /// Greater than the number.
    Plus,
    /// Less than the number.
    Minus,
}

/// The unit of a size.
#[derive(Debug, Clone, Copy, PartialEq, Eq)]
pub enum SizeSuffix {
    /// Blocks of 512 bytes.
    Blocks,
    /// Bytes.
    Bytes,
    /// Words of two bytes.
    Words,
    /// Units of 1024 bytes.
    Kb,
    /// Units of 1024 * 1024 bytes.
    Mb,
    /// Units of 1024 * 1024 * 1024 bytes.
    Gb,
}

/// The argument of `-size`.
#[derive(Debug, Clone, Copy, PartialEq, Eq)]
pub struct SizeSpec {
    pub sign: Sign,
    pub value: u64,
    /// The unit; blocks where none is given.
    pub suffix: Option<SizeSuffix>,
}

/// The argument of a time test; the unit is that of the test.
#[derive(Debug, Clone, Copy, PartialEq, Eq)]
pub struct TimeSpec {
    pub sign: Sign,
    pub value: u64,
}

/// The argument of `-perm`.
#[derive(Debug, PartialEq, Eq)]
pub struct PermSpec {
    /// How the bits are compared; exactly, where no prefix is given.
    pub prefix: Option<PermPrefix>,
    pub term: PermTerm,
}

/// The prefix of a permission argument.
#[derive(Debug, Clone, Copy, PartialEq, Eq)]
pub enum PermPrefix {
    /// `-`: all of the given bits are set.
    AllMode,
    /// `/`: any of the given bits is set.
    AnyMode,
}

/// The permission bits asked for.
#[derive(Debug, PartialEq, Eq)]
pub enum PermTerm {
    /// The bits themselves.
    Numeric(u32),
    /// Statements applied in order to the entry's own bits.
    Symbolic(Vec<SymPermStatement>),
}

/// One symbolic statement, such as `u+rw`.
#[derive(Debug, PartialEq, Eq)]
pub struct SymPermStatement {
    pub principal: SymPrincipal,
    pub operator: SymPermOperator,
    pub privileges: Vec<SymPermPriv>,
}

/// Whose bits a statement changes.
#[derive(Debug, Clone, Copy, PartialEq, Eq)]
pub enum SymPrincipal {
    User,
    Group,
    Other,
    All,
}

/// What a statement does with the bits.
#[derive(Debug, Clone, Copy, PartialEq, Eq)]
pub enum SymPermOperator {
    /// `+`: sets the bits named.
    Add,
    /// `-`: clears the bits named.
    Remove,
    /// `=`: clears the principal's bits, then sets the bits named.
    Assign,
}

/// One privilege.
#[derive(Debug, Clone, Copy, PartialEq, Eq)]
pub enum SymPermPriv {
    Read,
    Write,
    Execute,
}

/// What a [`SymPermStatement`] says.
pub struct SymPermStatementView {
    pub principal: SymPrincipal,
    pub operator: SymPermOperator,
    pub privileges: Seq<SymPermPriv>,
}

/// What a [`PermTerm`] says.
pub enum PermTermView {
    Numeric(u32),
    Symbolic(Seq<SymPermStatementView>),
}

/// What a [`PermSpec`] says.
pub struct PermSpecView {
    pub prefix: Option<PermPrefix>,
    pub term: PermTermView,
}

/// What a [`Test`] says.
pub enum TestView {
    Path(Seq<char>),
    Name(Seq<char>),
    Iname(Seq<char>),
    Regex(Seq<char>),
    True,
    False,
    Type(FileType),
    Size(SizeSpec),
    Empty,
    Amin(TimeSpec),
    Atime(TimeSpec),
    Ctime(TimeSpec),
    Cmin(TimeSpec),
    Mmin(TimeSpec),
    Mtime(TimeSpec),
    Anewer(Seq<char>),
    Cnewer(Seq<char>),
    Mnewer(Seq<char>),
    Newer(Seq<char>),
    Ipath(Seq<char>),
    Iregex(Seq<char>),
    User(Seq<char>),
    Group(Seq<char>),
    Uid(u32),
    Gid(u32),
    Perm(PermSpecView),
}

/// What an [`Expr`] says.
pub enum ExprView {
    Not(Box<ExprView>),
    And(Box<ExprView>, Box<ExprView>),
    Or(Box<ExprView>, Box<ExprView>),
    Test(TestView),
}

impl FileType {
    /// The letter that stands for the kind in an expression.
    pub open spec fn letter(self) -> char {
        match self {
            FileType::BlockFile => 'b',
            FileType::CharFile => 'c',
            FileType::Directory => 'd',
            FileType::NamedPipe => 'p',
            FileType::RegularFile => 'f',
            FileType::SymbolicLink => 'l',
            FileType::Socket => 's',
        }
    }

    /// The kind as it is written in an expression: its letter.
    pub fn to_string(&self) -> (s: String)
        ensures
            s@ == seq![self.letter()],
    {
        proof {
            reveal_strlit("b");
            reveal_strlit("c");
            reveal_strlit("d");
            reveal_strlit("p");
            reveal_strlit("f");
            reveal_strlit("l");
            reveal_strlit("s");
        }
        let s = match self {
            FileType::BlockFile => String::from_str("b"),
            FileType::CharFile => String::from_str("c"),
            FileType::Directory => String::from_str("d"),
            FileType::NamedPipe => String::from_str("p"),
            FileType::RegularFile => String::from_str("f"),
            FileType::SymbolicLink => String::from_str("l"),
            FileType::Socket => String::from_str("s"),
        };
        assert(s@ =~= seq![self.letter()]);
        s
    }
}

impl SizeSuffix {
    /// The letter that stands for the unit in an expression.
    pub open spec fn letter(self) -> char {
        match self {
            SizeSuffix::Blocks => 'b',
            SizeSuffix::Bytes => 'c',
            SizeSuffix::Words => 'w',
            SizeSuffix::Kb => 'k',
            SizeSuffix::Mb => 'M',
            SizeSuffix::Gb => 'G',
        }
    }

    /// The unit as it is written in an expression: its letter.
    pub fn to_string(&self) -> (s: String)
        ensures
            s@ == seq![self.letter()],
    {
        proof {
            reveal_strlit("b");
            reveal_strlit("c");
            reveal_strlit("w");
            reveal_strlit("k");
            reveal_strlit("M");
            reveal_strlit("G");
        }
        let s = match self {
            SizeSuffix::Blocks => String::from_str("b"),
            SizeSuffix::Bytes => String::from_str("c"),
            SizeSuffix::Words => String::from_str("w"),
            SizeSuffix::Kb => String::from_str("k"),
            SizeSuffix::Mb => String::from_str("M"),
            SizeSuffix::Gb => String::from_str("G"),
        };
        assert(s@ =~= seq![self.letter()]);
        s
    }
}

impl View for SymPermStatement {
    type V = SymPermStatementView;

    open spec fn view(&self) -> SymPermStatementView {
        SymPermStatementView {
            principal: self.principal,
            operator: self.operator,
            privileges: self.privileges@,
        }
    }
}

/// The views of a list of statements, in order.
pub open spec fn statement_views(statements: Seq<SymPermStatement>) -> Seq<SymPermStatementView> {
    statements.map_values(|s: SymPermStatement| s@)
}

impl View for PermTerm {
    type V = PermTermView;

    open spec fn view(&self) -> PermTermView {
        match self {
            PermTerm::Numeric(bits) => PermTermView::Numeric(*bits),
            PermTerm::Symbolic(statements) => PermTermView::Symbolic(statement_views(statements@)),
        }
    }
}

impl View for PermSpec {
    type V = PermSpecView;

    open spec fn view(&self) -> PermSpecView {
        PermSpecView { prefix: self.prefix, term: self.term@ }
    }
}

impl View for Test {
    type V = TestView;

    open spec fn view(&self) -> TestView {
        match self {
            Test::Path(s) => TestView::Path(s@),
            Test::Name(s) => TestView::Name(s@),
            Test::Iname(s) => TestView::Iname(s@),
            Test::Regex(s) => TestView::Regex(s@),
            Test::True => TestView::True,
            Test::False => TestView::False,
            Test::Type(t) => TestView::Type(*t),
            Test::Size(s) => TestView::Size(*s),
            Test::Empty => TestView::Empty,
            Test::Amin(t) => TestView::Amin(*t),
            Test::Atime(t) => TestView::Atime(*t),
            Test::Ctime(t) => TestView::Ctime(*t),
            Test::Cmin(t) => TestView::Cmin(*t),
            Test::Mmin(t) => TestView::Mmin(*t),
            Test::Mtime(t) => TestView::Mtime(*t),
            Test::Anewer(s) => TestView::Anewer(s@),
            Test::Cnewer(s) => TestView::Cnewer(s@),
            Test::Mnewer(s) => TestView::Mnewer(s@),
            Test::Newer(s) => TestView::Newer(s@),
            Test::Ipath(s) => TestView::Ipath(s@),
            Test::Iregex(s) => TestView::Iregex(s@),
            Test::User(s) => TestView::User(s@),
            Test::Group(s) => TestView::Group(s@),
            Test::Uid(n) => TestView::Uid(*n),
            Test::Gid(n) => TestView::Gid(*n),
            Test::Perm(p) => TestView::Perm(p@),
        }
    }
}

impl Expr {
    /// What the expression says, with each pattern and path as a sequence of
    /// characters.
    pub open spec fn model(self) -> ExprView
        decreases self,
    {
        match self {
            Expr::Not(inner) => ExprView::Not(Box::new((*inner).model())),
            Expr::And(left, right) => ExprView::And(
                Box::new((*left).model()),
                Box::new((*right).model()),
            ),
            Expr::Or(left, right) => ExprView::Or(
                Box::new((*left).model()),
                Box::new((*right).model()),
            ),
            Expr::Test(test) => ExprView::Test(test@),
        }
    }
}

impl Clone for SymPermStatement {
    fn clone(&self) -> (copy: Self)
        ensures
            copy@ == self@,
    {
        let mut privileges: Vec<SymPermPriv> = Vec::new();
        let mut i: usize = 0;
        while i < self.privileges.len()
            invariant
                i <= self.privileges.len(),
                privileges@ == self.privileges@.take(i as int),
            decreases self.privileges.len() - i,
        {
            privileges.push(self.privileges[i]);
            assert(privileges@ =~= self.privileges@.take(i + 1));
            i = i + 1;
        }
        assert(self.privileges@.take(i as int) =~= self.privileges@);
        SymPermStatement { principal: self.principal, operator: self.operator, privileges }
    }
}

impl Clone for PermTerm {
    fn clone(&self) -> (copy: Self)
        ensures
            copy@ == self@,
    {
        match self {
            PermTerm::Numeric(bits) => PermTerm::Numeric(*bits),
            PermTerm::Symbolic(statements) => {
                let mut list: Vec<SymPermStatement> = Vec::new();
                let mut i: usize = 0;
                assert(statement_views(list@) =~= statement_views(statements@).take(0));
                while i < statements.len()
                    invariant
                        i <= statements.len(),
                        statement_views(list@) == statement_views(statements@).take(i as int),
                    decreases statements.len() - i,
                {
                    let ghost before = list@;
                    let statement = statements[i].clone();
                    list.push(statement);
                    assert(statement_views(list@) =~= statement_views(before).push(statement@));
                    assert(statement_views(list@) =~= statement_views(statements@).take(i + 1));
                    i = i + 1;
                }
                assert(statement_views(statements@).take(i as int) =~= statement_views(
                    statements@,
                ));
                PermTerm::Symbolic(list)
            },
        }
    }
}

impl Clone for PermSpec {
    fn clone(&self) -> (copy: Self)
        ensures
            copy@ == self@,
    {
        PermSpec { prefix: self.prefix, term: self.term.clone() }
    }
}

impl Clone for Test {
    fn clone(&self) -> (copy: Self)
        ensures
            copy@ == self@,
    {
        match self {
            Test::Path(s) => Test::Path(s.clone()),
            Test::Name(s) => Test::Name(s.clone()),
            Test::Iname(s) => Test::Iname(s.clone()),
            Test::Regex(s) => Test::Regex(s.clone()),
            Test::True => Test::True,
            Test::False => Test::False,
            Test::Type(t) => Test::Type(*t),
            Test::Size(s) => Test::Size(*s),
            Test::Empty => Test::Empty,
            Test::Amin(t) => Test::Amin(*t),
            Test::Atime(t) => Test::Atime(*t),
            Test::Ctime(t) => Test::Ctime(*t),
            Test::Cmin(t) => Test::Cmin(*t),
            Test::Mmin(t) => Test::Mmin(*t),
            Test::Mtime(t) => Test::Mtime(*t),
            Test::Anewer(s) => Test::Anewer(s.clone()),
            Test::Cnewer(s) => Test::Cnewer(s.clone()),
            Test::Mnewer(s) => Test::Mnewer(s.clone()),
            Test::Newer(s) => Test::Newer(s.clone()),
            Test::Ipath(s) => Test::Ipath(s.clone()),
            Test::Iregex(s) => Test::Iregex(s.clone()),
            Test::User(s) => Test::User(s.clone()),
            Test::Group(s) => Test::Group(s.clone()),
            Test::Uid(n) => Test::Uid(*n),
            Test::Gid(n) => Test::Gid(*n),
            Test::Perm(p) => Test::Perm(p.clone()),
        }
    }
}

impl Clone for Expr {
    fn clone(&self) -> (copy: Self)
        ensures
            copy@ == self@,
        decreases self,
    {
        match self {
            Expr::Not(inner) => Expr::Not(Box::new((**inner).clone())),
            Expr::And(left, right) => Expr::And(
                Box::new((**left).clone()),
                Box::new((**right).clone()),
            ),
            Expr::Or(left, right) => Expr::Or(
                Box::new((**left).clone()),
                Box::new((**right).clone()),
            ),
            Expr::Test(test) => Expr::Test(test.clone()),
        }
    }
}

impl View for Expr {
    type V = ExprView;

    open spec fn view(&self) -> ExprView {
        self.model()
    }
}

} // verus!
