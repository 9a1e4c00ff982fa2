//! What an expression means: for each test, when it holds of an entry.
//!
//! A test that cannot be resolved (metadata that could not be read, a time
//! that the host does not record, a reference file that is missing, a
//! pattern that does not compile) does not hold.

use vstd::prelude::*;
use crate::ast::{
    ExprView, PermPrefix, PermSpecView, PermTermView, Sign, SizeSpec, SizeSuffix, SymPermOperator,
    SymPermPriv, SymPermStatementView, SymPrincipal, TestView, TimeSpec,
};
use crate::entry::{ContextView, EntryView, TimeKind, Timestamp, answer, reference_metadata};
use crate::pattern::{glob_outcome, lowercase, regex_outcome};
use crate::text::unsigned;

verus! {

/// Whether a measured quantity compares with the number given as the sign
/// asks.
pub open spec fn compares(sign: Sign, measured: int, given: int) -> bool {
    match sign {
        Sign::Exact => measured == given,
        Sign::Plus => measured > given,
        Sign::Minus => measured < given,
    }
}

/// The bytes in one unit of size; blocks of 512 where no unit is given.
pub open spec fn unit_bytes(suffix: Option<SizeSuffix>) -> nat {
    match suffix {
        Some(SizeSuffix::Bytes) => 1,
        Some(SizeSuffix::Words) => 2,
        Some(SizeSuffix::Kb) => 1024,
        Some(SizeSuffix::Mb) => 1024 * 1024,
        Some(SizeSuffix::Gb) => 1024 * 1024 * 1024,
        Some(SizeSuffix::Blocks) | None => 512,
    }
}

/// The size in bytes that a size specification names.
pub open spec fn size_in_bytes(spec: SizeSpec) -> nat {
    (spec.value as nat) * unit_bytes(spec.suffix)
}

/// Whether a length of `len` bytes is what the size specification asks for.
pub open spec fn size_matches(spec: SizeSpec, len: u64) -> bool {
    compares(spec.sign, len as int, size_in_bytes(spec) as int)
}

/// The whole units of `unit_seconds` seconds that lie between `then` and
/// `now`; `None` where `then` is the later of the two.
pub open spec fn elapsed_units(now: Timestamp, then: Timestamp, unit_seconds: nat) -> Option<nat> {
    if then.total_nanos() > now.total_nanos() {
        None
    } else {
        let seconds = (now.total_nanos() - then.total_nanos()) / 1_000_000_000;
        Some((seconds / (unit_seconds as int)) as nat)
    }
}

/// Whether the time `then`, seen from `now`, is what the time specification
/// asks for, in units of `unit_seconds` seconds.
pub open spec fn time_matches(
    now: Timestamp,
    then: Timestamp,
    spec: TimeSpec,
    unit_seconds: nat,
) -> bool {
    match elapsed_units(now, then, unit_seconds) {
        Some(units) => compares(spec.sign, units as int, spec.value as int),
        None => false,
    }
}

/// The seconds in a minute.
pub open spec fn minute() -> nat {
    60
}

/// The seconds in a day.
pub open spec fn day() -> nat {
    86400
}

/// The permission bits that belong to a principal.
pub open spec fn principal_bits(principal: SymPrincipal) -> u32 {
    match principal {
        SymPrincipal::User => 0o700,
        SymPrincipal::Group => 0o070,
        SymPrincipal::Other => 0o007,
        SymPrincipal::All => 0o777,
    }
}

/// The bits of one privilege, for every principal.
pub open spec fn privilege_class(privilege: SymPermPriv) -> u32 {
    match privilege {
        SymPermPriv::Read => 0o444,
        SymPermPriv::Write => 0o222,
        SymPermPriv::Execute => 0o111,
    }
}

/// The bits of the privileges listed, for every principal.
pub open spec fn privilege_bits(privileges: Seq<SymPermPriv>) -> u32
    decreases privileges.len(),
{
    if privileges.len() == 0 {
        0
    } else {
        privilege_bits(privileges.drop_last()) | privilege_class(privileges.last())
    }
}

/// The bits that a statement names: those of its privileges that belong to
/// its principal.
pub open spec fn permission_mask(principal: SymPrincipal, privileges: Seq<SymPermPriv>) -> u32 {
    principal_bits(principal) & privilege_bits(privileges)
}

/// The bits that one statement makes of `bits`.
pub open spec fn apply_statement(bits: u32, statement: SymPermStatementView) -> u32 {
    let mask = permission_mask(statement.principal, statement.privileges);
    match statement.operator {
        SymPermOperator::Add => bits | mask,
        SymPermOperator::Remove => bits & !mask,
        SymPermOperator::Assign => (bits & !principal_bits(statement.principal)) | mask,
    }
}

/// The bits that the statements make of `bits`, applied from left to right.
pub open spec fn apply_statements(bits: u32, statements: Seq<SymPermStatementView>) -> u32
    decreases statements.len(),
{
    if statements.len() == 0 {
        bits
    } else {
        apply_statement(apply_statements(bits, statements.drop_last()), statements.last())
    }
}

/// Whether the bits of a file are what the prefix asks of the target bits.
pub open spec fn bits_match(prefix: Option<PermPrefix>, file: u32, target: u32) -> bool {
    match prefix {
        None => file == target,
        Some(PermPrefix::AllMode) => (file & target) == target,
        Some(PermPrefix::AnyMode) => (file & target) != 0,
    }
}

/// Whether a file of the given mode is what the permission specification
/// asks for. Only the low nine bits of the mode count; symbolic statements
/// start from those bits.
pub open spec fn perm_matches(spec: PermSpecView, mode: u32) -> bool {
    let file = mode & 0o777;
    match spec.term {
        PermTermView::Numeric(target) => bits_match(spec.prefix, file, target),
        PermTermView::Symbolic(statements) => bits_match(
            spec.prefix,
            file,
            apply_statements(file, statements),
        ),
    }
}

/// Whether the outcome of a match is a match.
pub open spec fn accepted(outcome: Option<bool>) -> bool {
    outcome == Some(true)
}

/// Whether the glob pattern matches the text; with `ignore_case`, both are
/// put in lower case first.
pub open spec fn glob_matches(pattern: Seq<char>, text: Seq<char>, ignore_case: bool) -> bool {
    if ignore_case {
        accepted(glob_outcome(lowercase(pattern), lowercase(text)))
    } else {
        accepted(glob_outcome(pattern, text))
    }
}

/// The regular expression that matches what `pattern` matches, and only as
/// the whole of a text.
pub open spec fn anchored(pattern: Seq<char>, ignore_case: bool) -> Seq<char> {
    if ignore_case {
        "(?i)^"@ + pattern + "$"@
    } else {
        "^"@ + pattern + "$"@
    }
}

/// Whether the regular expression matches the whole text.
pub open spec fn regex_matches(pattern: Seq<char>, text: Seq<char>, ignore_case: bool) -> bool {
    accepted(regex_outcome(anchored(pattern, ignore_case), text))
}

/// The entry's time of the given kind, where its metadata holds one.
pub open spec fn entry_stamp(entry: EntryView, kind: TimeKind) -> Option<Timestamp> {
    match entry.metadata {
        Some(metadata) => metadata.stamp(kind),
        None => None,
    }
}

/// Whether the entry's time of the given kind is what the time specification
/// asks for.
pub open spec fn stamp_matches(
    entry: EntryView,
    ctx: ContextView,
    kind: TimeKind,
    spec: TimeSpec,
    unit_seconds: nat,
) -> bool {
    match entry_stamp(entry, kind) {
        Some(then) => time_matches(ctx.now, then, spec, unit_seconds),
        None => false,
    }
}

/// Whether the entry's time of the given kind is later than the same time
/// of the reference file.
pub open spec fn newer_than(
    entry: EntryView,
    ctx: ContextView,
    path: Seq<char>,
    kind: TimeKind,
) -> bool {
    match (entry_stamp(entry, kind), reference_metadata(ctx.references, path)) {
        (Some(mine), Some(reference)) => match reference.stamp(kind) {
            Some(theirs) => mine.total_nanos() > theirs.total_nanos(),
            None => false,
        },
        _ => false,
    }
}

/// Whether an owner given by number or by name is the one with number `id`
/// and name `name`: what reads as an unsigned integer of 32 bits is a
/// number, anything else a name.
pub open spec fn owner_matches(given: Seq<char>, id: u32, name: Option<Seq<char>>) -> bool {
    match unsigned(given, u32::MAX as nat) {
        Some(n) => id == n,
        None => name == Some(given),
    }
}

/// Whether a test holds of an entry.
pub open spec fn test_holds(test: TestView, entry: EntryView, ctx: ContextView) -> bool {
    match test {
        TestView::Path(pattern) => glob_matches(pattern, entry.path, false),
        TestView::Ipath(pattern) => glob_matches(pattern, entry.path, true),
        TestView::Name(pattern) => glob_matches(pattern, entry.file_name, false),
        TestView::Iname(pattern) => glob_matches(pattern, entry.file_name, true),
        TestView::Regex(pattern) => regex_matches(pattern, entry.path, false),
        TestView::Iregex(pattern) => regex_matches(pattern, entry.path, true),
        TestView::True => true,
        TestView::False => false,
        TestView::Type(kind) => entry.metadata matches Some(m) && m.file_type == Some(kind),
        TestView::Size(spec) => entry.metadata matches Some(m) && size_matches(spec, m.len),
        TestView::Empty => entry.metadata matches Some(m) && m.len == 0,
        TestView::Amin(spec) => stamp_matches(entry, ctx, TimeKind::Accessed, spec, minute()),
        TestView::Atime(spec) => stamp_matches(entry, ctx, TimeKind::Accessed, spec, day()),
        TestView::Cmin(spec) => stamp_matches(entry, ctx, TimeKind::Created, spec, minute()),
        TestView::Ctime(spec) => stamp_matches(entry, ctx, TimeKind::Created, spec, day()),
        TestView::Mmin(spec) => stamp_matches(entry, ctx, TimeKind::Modified, spec, minute()),
        TestView::Mtime(spec) => stamp_matches(entry, ctx, TimeKind::Modified, spec, day()),
        TestView::Anewer(path) => newer_than(entry, ctx, path, TimeKind::Accessed),
        TestView::Cnewer(path) => newer_than(entry, ctx, path, TimeKind::Created),
        TestView::Mnewer(path) => newer_than(entry, ctx, path, TimeKind::Modified),
        TestView::Newer(path) => newer_than(entry, ctx, path, TimeKind::Modified),
        TestView::User(given) => entry.metadata matches Some(m) && m.owner matches Some(o)
            && owner_matches(given, o.uid, entry.user_name),
        TestView::Group(given) => entry.metadata matches Some(m) && m.owner matches Some(o)
            && owner_matches(given, o.gid, entry.group_name),
        TestView::Uid(id) => entry.metadata matches Some(m) && m.owner matches Some(o) && o.uid
            == id,
        TestView::Gid(id) => entry.metadata matches Some(m) && m.owner matches Some(o) && o.gid
            == id,
        TestView::Perm(spec) => entry.metadata matches Some(m) && m.owner matches Some(o)
            && perm_matches(spec, o.mode),
    }
}

/// Whether an expression holds of an entry.
pub open spec fn holds(expr: ExprView, entry: EntryView, ctx: ContextView) -> bool
    decreases expr,
{
    match expr {
        ExprView::Not(inner) => !holds(*inner, entry, ctx),
        ExprView::And(left, right) => holds(*left, entry, ctx) && holds(*right, entry, ctx),
        ExprView::Or(left, right) => holds(*left, entry, ctx) || holds(*right, entry, ctx),
        ExprView::Test(test) => test_holds(test, entry, ctx),
    }
}

/// The reference file that a test of the entry's time of the given kind
/// needs and the context does not answer for. The reference is consulted
/// only where the entry has such a time.
pub open spec fn reference_needed(
    entry: EntryView,
    ctx: ContextView,
    path: Seq<char>,
    kind: TimeKind,
) -> Option<Seq<char>> {
    if entry_stamp(entry, kind) is Some && answer(ctx.references, path) is None {
        Some(path)
    } else {
        None
    }
}

/// The reference file that a test needs and the context does not answer
/// for.
pub open spec fn test_needs(test: TestView, entry: EntryView, ctx: ContextView) -> Option<
    Seq<char>,
> {
    match test {
        TestView::Anewer(path) => reference_needed(entry, ctx, path, TimeKind::Accessed),
        TestView::Cnewer(path) => reference_needed(entry, ctx, path, TimeKind::Created),
        TestView::Mnewer(path) => reference_needed(entry, ctx, path, TimeKind::Modified),
        TestView::Newer(path) => reference_needed(entry, ctx, path, TimeKind::Modified),
        _ => None,
    }
}

/// The first reference file that the evaluation of an expression consults
/// and the context does not answer for; `None` where it consults no such
/// file. Operands are taken from left to right, and the right operand of
/// `And` and `Or` only where the left one does not decide.
pub open spec fn needs(expr: ExprView, entry: EntryView, ctx: ContextView) -> Option<Seq<char>>
    decreases expr,
{
    match expr {
        ExprView::Not(inner) => needs(*inner, entry, ctx),
        ExprView::And(left, right) => match needs(*left, entry, ctx) {
            Some(path) => Some(path),
            None => if holds(*left, entry, ctx) {
                needs(*right, entry, ctx)
            } else {
                None
            },
        },
        ExprView::Or(left, right) => match needs(*left, entry, ctx) {
            Some(path) => Some(path),
            None => if holds(*left, entry, ctx) {
                None
            } else {
                needs(*right, entry, ctx)
            },
        },
        ExprView::Test(test) => test_needs(test, entry, ctx),
    }
}

} // verus!
