//! The evaluator: decides whether an expression holds of an entry.

use vstd::prelude::*;
use crate::ast::{
    Expr, FileType, PermPrefix, PermSpec, PermTerm, Sign, SizeSpec, SizeSuffix, SymPermOperator,
    SymPermPriv, SymPermStatement, SymPrincipal, Test, TimeSpec, statement_views,
};
use crate::entry::{Context, Entry, Metadata, TimeKind, Timestamp};
use crate::pattern::{glob_match, regex_match, to_lowercase};
use crate::semantics::{
    accepted, anchored, apply_statements, bits_match, compares, day, entry_stamp, glob_matches,
    holds, minute, needs, newer_than, owner_matches, perm_matches, permission_mask,
    principal_bits, privilege_bits, privilege_class, reference_needed, regex_matches,
    size_in_bytes, size_matches, stamp_matches, test_holds, time_matches,
};
use crate::text::{chars_of, parse_unsigned};

verus! {

/// The evaluator of selection expressions. It keeps no state: each call
/// decides from its arguments alone.
pub struct Interpreter;

/// How the bits that one more privilege adds show in a principal's mask.
proof fn lemma_mask_extends(bits: u32)
    by (bit_vector)
    ensures
        0o700u32 & (bits | 0o444u32) == (0o700u32 & bits) | (0o4u32 << 6u32),
        0o700u32 & (bits | 0o222u32) == (0o700u32 & bits) | (0o2u32 << 6u32),
        0o700u32 & (bits | 0o111u32) == (0o700u32 & bits) | (0o1u32 << 6u32),
        0o070u32 & (bits | 0o444u32) == (0o070u32 & bits) | (0o4u32 << 3u32),
        0o070u32 & (bits | 0o222u32) == (0o070u32 & bits) | (0o2u32 << 3u32),
        0o070u32 & (bits | 0o111u32) == (0o070u32 & bits) | (0o1u32 << 3u32),
        0o007u32 & (bits | 0o444u32) == (0o007u32 & bits) | 0o4u32,
        0o007u32 & (bits | 0o222u32) == (0o007u32 & bits) | 0o2u32,
        0o007u32 & (bits | 0o111u32) == (0o007u32 & bits) | 0o1u32,
        0o777u32 & (bits | 0o444u32) == ((((0o777u32 & bits) | (0o4u32 << 6u32)) | (0o4u32
            << 3u32)) | 0o4u32),
        0o777u32 & (bits | 0o222u32) == ((((0o777u32 & bits) | (0o2u32 << 6u32)) | (0o2u32
            << 3u32)) | 0o2u32),
        0o777u32 & (bits | 0o111u32) == ((((0o777u32 & bits) | (0o1u32 << 6u32)) | (0o1u32
            << 3u32)) | 0o1u32),
        0o700u32 & 0u32 == 0u32,
        0o070u32 & 0u32 == 0u32,
        0o007u32 & 0u32 == 0u32,
        0o777u32 & 0u32 == 0u32,
{
}

impl Interpreter {
    /// Whether a measured quantity compares with the number given as the
    /// sign asks.
    fn compare(sign: &Sign, measured: i128, given: i128) -> (r: bool)
        ensures
            r == compares(*sign, measured as int, given as int),
    {
        match sign {
            Sign::Exact => measured == given,
            Sign::Plus => measured > given,
            Sign::Minus => measured < given,
        }
    }

    /// Whether the time `file_time`, seen from `now`, is what the time
    /// specification asks for: the whole units of `time_unit_seconds`
    /// seconds between the two compare with its value as its sign says. A
    /// time that lies after `now` never matches.
    pub fn compare_time_spec(
        file_time: Timestamp,
        time_spec: &TimeSpec,
        time_unit_seconds: u64,
        now: Timestamp,
    ) -> (r: bool)
        requires
            time_unit_seconds > 0,
        ensures
            r == time_matches(now, file_time, *time_spec, time_unit_seconds as nat),
    {
        let now_nanos = now.nanos_since_epoch();
        let file_nanos = file_time.nanos_since_epoch();
        if file_nanos > now_nanos {
            return false;
        }
        let seconds: i128 = (now_nanos - file_nanos) / 1_000_000_000;
        let time_ago: i128 = seconds / (time_unit_seconds as i128);
        Self::compare(&time_spec.sign, time_ago, time_spec.value as i128)
    }

    /// The size in bytes that a size specification names: its value times
    /// its unit.
    pub fn calculate_size_in_bytes(size_spec: &SizeSpec) -> (bytes: u128)
        ensures
            bytes == size_in_bytes(*size_spec),
    {
        let multiplier: u128 = match size_spec.suffix {
            Some(SizeSuffix::Bytes) => 1,
            Some(SizeSuffix::Words) => 2,
            Some(SizeSuffix::Kb) => 1024,
            Some(SizeSuffix::Mb) => 1024 * 1024,
            Some(SizeSuffix::Gb) => 1024 * 1024 * 1024,
            Some(SizeSuffix::Blocks) | None => 512,
        };
        assert((size_spec.value as u128) * multiplier <= 0xffff_ffff_ffff_ffff * 0x4000_0000)
            by (nonlinear_arith)
            requires
                size_spec.value <= 0xffff_ffff_ffff_ffff,
                multiplier <= 0x4000_0000,
        ;
        (size_spec.value as u128) * multiplier
    }

    /// The permission bits that belong to a principal.
    pub fn get_principal_mask(principal: &SymPrincipal) -> (mask: u32)
        ensures
            mask == principal_bits(*principal),
    {
        match principal {
            SymPrincipal::User => 0o700,
            SymPrincipal::Group => 0o070,
            SymPrincipal::Other => 0o007,
            SymPrincipal::All => 0o777,
        }
    }

    /// The bits that a statement names: those of the privileges listed that
    /// belong to the principal.
    pub fn get_permission_mask(principal: &SymPrincipal, privileges: &[SymPermPriv]) -> (mask: u32)
        ensures
            mask == permission_mask(*principal, privileges@),
    {
        let mut mask: u32 = 0;
        let mut i: usize = 0;
        proof {
            lemma_mask_extends(0);
            assert(privileges@.take(0) =~= Seq::empty());
        }
        while i < privileges.len()
            invariant
                i <= privileges.len(),
                mask == permission_mask(*principal, privileges@.take(i as int)),
            decreases privileges.len() - i,
        {
            let perm_bit: u32 = match privileges[i] {
                SymPermPriv::Read => 0o4,
                SymPermPriv::Write => 0o2,
                SymPermPriv::Execute => 0o1,
            };
            proof {
                let shorter = privileges@.take(i as int);
                let longer = privileges@.take(i + 1);
                assert(longer.drop_last() =~= shorter);
                assert(longer.last() == privileges@[i as int]);
                assert(privilege_bits(longer) == privilege_bits(shorter) | privilege_class(
                    privileges@[i as int],
                ));
                lemma_mask_extends(privilege_bits(shorter));
            }
            match principal {
                SymPrincipal::User => {
                    mask = mask | (perm_bit << 6);
                },
                SymPrincipal::Group => {
                    mask = mask | (perm_bit << 3);
                },
                SymPrincipal::Other => {
                    mask = mask | perm_bit;
                },
                SymPrincipal::All => {
                    mask = mask | (perm_bit << 6);
                    mask = mask | (perm_bit << 3);
                    mask = mask | perm_bit;
                },
            }
            i = i + 1;
        }
        assert(privileges@.take(i as int) =~= privileges@);
        mask
    }

    /// The bits that the statements make of `current_perms`, applied from
    /// left to right: `+` sets the bits named, `-` clears them, and `=`
    /// clears the principal's bits and then sets the bits named.
    pub fn symbolic_to_numeric(statements: &[SymPermStatement], current_perms: u32) -> (bits: u32)
        ensures
            bits == apply_statements(current_perms, statement_views(statements@)),
    {
        let ghost all = statement_views(statements@);
        let mut result_perms = current_perms;
        let mut i: usize = 0;
        assert(all.take(0) =~= Seq::empty());
        while i < statements.len()
            invariant
                i <= statements.len(),
                all == statement_views(statements@),
                result_perms == apply_statements(current_perms, all.take(i as int)),
            decreases statements.len() - i,
        {
            let statement = &statements[i];
            proof {
                assert(all.take(i + 1).drop_last() =~= all.take(i as int));
                assert(all.take(i + 1).last() == statement@);
            }
            let perm_mask = Self::get_permission_mask(
                &statement.principal,
                statement.privileges.as_slice(),
            );
            match statement.operator {
                SymPermOperator::Add => {
                    result_perms = result_perms | perm_mask;
                },
                SymPermOperator::Remove => {
                    result_perms = result_perms & !perm_mask;
                },
                SymPermOperator::Assign => {
                    let principal_mask = Self::get_principal_mask(&statement.principal);
                    result_perms = result_perms & !principal_mask;
                    result_perms = result_perms | perm_mask;
                },
            }
            i = i + 1;
        }
        assert(all.take(i as int) =~= all);
        result_perms
    }

    /// Whether the bits of a file are what the prefix asks of the target
    /// bits: equal to them without a prefix, all of them set with `-`, any
    /// of them set with `/`.
    pub fn match_numeric_perm(
        target_perms: u32,
        file_perms: u32,
        prefix: &Option<PermPrefix>,
    ) -> (r: bool)
        ensures
            r == bits_match(*prefix, file_perms, target_perms),
    {
        match prefix {
            None => file_perms == target_perms,
            Some(PermPrefix::AllMode) => (file_perms & target_perms) == target_perms,
            Some(PermPrefix::AnyMode) => (file_perms & target_perms) != 0,
        }
    }

    /// Whether the bits of a file are what the prefix asks of the bits that
    /// the statements make of them.
    pub fn match_symbolic_perm(
        statements: &[SymPermStatement],
        file_perms: u32,
        prefix: &Option<PermPrefix>,
    ) -> (r: bool)
        ensures
            r == bits_match(
                *prefix,
                file_perms,
                apply_statements(file_perms, statement_views(statements@)),
            ),
    {
        let target_perms = Self::symbolic_to_numeric(statements, file_perms);
        Self::match_numeric_perm(target_perms, file_perms, prefix)
    }
}

impl Interpreter {
    /// Whether the outcome of a match is a match: a pattern that does not
    /// compile matches nothing.
    pub fn accepts(outcome: Option<bool>) -> (r: bool)
        ensures
            r == accepted(outcome),
    {
        match outcome {
            Some(matched) => matched,
            None => false,
        }
    }

    /// Whether the glob pattern matches the target; case-insensitively,
    /// both are put in lower case first.
    pub fn match_glob_pattern(pattern: &str, target: &str, case_insensitive: bool) -> (r: bool)
        ensures
            r == glob_matches(pattern@, target@, case_insensitive),
    {
        if case_insensitive {
            let pattern = to_lowercase(pattern);
            let target = to_lowercase(target);
            Self::accepts(glob_match(pattern.as_str(), target.as_str()))
        } else {
            Self::accepts(glob_match(pattern, target))
        }
    }

    /// The entry's metadata, where it could be read.
    fn get_metadata(entry: &Entry) -> (metadata: Option<Metadata>)
        ensures
            metadata == entry@.metadata,
    {
        entry.metadata
    }

    /// The entry's time of the given kind, where its metadata holds one.
    fn get_time(entry: &Entry, kind: TimeKind) -> (stamp: Option<Timestamp>)
        ensures
            stamp == entry_stamp(entry@, kind),
    {
        match Self::get_metadata(entry) {
            Some(metadata) => metadata.time(kind),
            None => None,
        }
    }

    /// Whether the entry's time of the given kind is later than the same
    /// time of the reference file `filepath`. The reference is consulted
    /// only where the entry has such a time.
    fn compare_file_times(
        entry: &Entry,
        ctx: &Context,
        filepath: &String,
        kind: TimeKind,
    ) -> (r: bool)
        ensures
            r == newer_than(entry@, ctx@, filepath@, kind),
    {
        let entry_time = match Self::get_time(entry, kind) {
            Some(time) => time,
            None => {
                return false;
            },
        };
        let reference_metadata = match ctx.find(filepath) {
            Some(Some(metadata)) => metadata,
            _ => {
                return false;
            },
        };
        let reference_time = match reference_metadata.time(kind) {
            Some(time) => time,
            None => {
                return false;
            },
        };
        entry_time.is_after(&reference_time)
    }

    fn match_path(pattern: &String, entry: &Entry, case_insensitive: bool) -> (r: bool)
        ensures
            r == glob_matches(pattern@, entry@.path, case_insensitive),
    {
        Self::match_glob_pattern(pattern.as_str(), entry.path.as_str(), case_insensitive)
    }

    fn match_name(pattern: &String, entry: &Entry, case_insensitive: bool) -> (r: bool)
        ensures
            r == glob_matches(pattern@, entry@.file_name, case_insensitive),
    {
        Self::match_glob_pattern(pattern.as_str(), entry.file_name.as_str(), case_insensitive)
    }

    /// The regular expression that matches what `pattern` matches, and only
    /// as the whole of a text: `^pattern$`, after `(?i)` where case is
    /// ignored.
    pub fn anchor(pattern: &str, case_insensitive: bool) -> (whole: String)
        ensures
            whole@ == anchored(pattern@, case_insensitive),
    {
        let mut whole = if case_insensitive {
            String::from_str("(?i)^")
        } else {
            String::from_str("^")
        };
        whole.append(pattern);
        whole.append("$");
        whole
    }

    fn match_regex(pattern: &String, entry: &Entry) -> (r: bool)
        ensures
            r == regex_matches(pattern@, entry@.path, false),
    {
        let anchored_pattern = Self::anchor(pattern.as_str(), false);
        Self::accepts(regex_match(anchored_pattern.as_str(), entry.path.as_str()))
    }

    fn match_iregex(pattern: &String, entry: &Entry) -> (r: bool)
        ensures
            r == regex_matches(pattern@, entry@.path, true),
    {
        let case_insensitive_pattern = Self::anchor(pattern.as_str(), true);
        Self::accepts(regex_match(case_insensitive_pattern.as_str(), entry.path.as_str()))
    }

    /// Whether two kinds of entry are the same.
    fn same_type(a: &FileType, b: &FileType) -> (same: bool)
        ensures
            same == (*a == *b),
    {
        match (a, b) {
            (FileType::BlockFile, FileType::BlockFile) => true,
            (FileType::CharFile, FileType::CharFile) => true,
            (FileType::Directory, FileType::Directory) => true,
            (FileType::NamedPipe, FileType::NamedPipe) => true,
            (FileType::RegularFile, FileType::RegularFile) => true,
            (FileType::SymbolicLink, FileType::SymbolicLink) => true,
            (FileType::Socket, FileType::Socket) => true,
            _ => false,
        }
    }

    fn match_type(file_type: &FileType, entry: &Entry) -> (r: bool)
        ensures
            r == (entry@.metadata matches Some(m) && m.file_type == Some(*file_type)),
    {
        let metadata = match Self::get_metadata(entry) {
            Some(metadata) => metadata,
            None => {
                return false;
            },
        };
        match metadata.file_type {
            Some(kind) => Self::same_type(&kind, file_type),
            None => false,
        }
    }

    fn match_size(size_spec: &SizeSpec, entry: &Entry) -> (r: bool)
        ensures
            r == (entry@.metadata matches Some(m) && size_matches(*size_spec, m.len)),
    {
        let metadata = match Self::get_metadata(entry) {
            Some(metadata) => metadata,
            None => {
                return false;
            },
        };
        let file_size = metadata.len as u128;
        let target_size = Self::calculate_size_in_bytes(size_spec);
        match size_spec.sign {
            Sign::Exact => file_size == target_size,
            Sign::Plus => file_size > target_size,
            Sign::Minus => file_size < target_size,
        }
    }

    fn match_empty(entry: &Entry) -> (r: bool)
        ensures
            r == (entry@.metadata matches Some(m) && m.len == 0),
    {
        let metadata = match Self::get_metadata(entry) {
            Some(metadata) => metadata,
            None => {
                return false;
            },
        };
        metadata.len == 0
    }

    /// Whether the entry's time of the given kind is what the time
    /// specification asks for, in units of `unit` seconds.
    fn match_time(
        time_spec: &TimeSpec,
        entry: &Entry,
        ctx: &Context,
        kind: TimeKind,
        unit: u64,
    ) -> (r: bool)
        requires
            unit > 0,
        ensures
            r == stamp_matches(entry@, ctx@, kind, *time_spec, unit as nat),
    {
        match Self::get_time(entry, kind) {
            Some(time) => Self::compare_time_spec(time, time_spec, unit, ctx.now),
            None => false,
        }
    }

    fn match_amin(time_spec: &TimeSpec, entry: &Entry, ctx: &Context) -> (r: bool)
        ensures
            r == stamp_matches(entry@, ctx@, TimeKind::Accessed, *time_spec, minute()),
    {
        Self::match_time(time_spec, entry, ctx, TimeKind::Accessed, 60)
    }

    fn match_atime(time_spec: &TimeSpec, entry: &Entry, ctx: &Context) -> (r: bool)
        ensures
            r == stamp_matches(entry@, ctx@, TimeKind::Accessed, *time_spec, day()),
    {
        Self::match_time(time_spec, entry, ctx, TimeKind::Accessed, 24 * 60 * 60)
    }

    fn match_ctime(time_spec: &TimeSpec, entry: &Entry, ctx: &Context) -> (r: bool)
        ensures
            r == stamp_matches(entry@, ctx@, TimeKind::Created, *time_spec, day()),
    {
        Self::match_time(time_spec, entry, ctx, TimeKind::Created, 24 * 60 * 60)
    }

    fn match_cmin(time_spec: &TimeSpec, entry: &Entry, ctx: &Context) -> (r: bool)
        ensures
            r == stamp_matches(entry@, ctx@, TimeKind::Created, *time_spec, minute()),
    {
        Self::match_time(time_spec, entry, ctx, TimeKind::Created, 60)
    }

    fn match_mmin(time_spec: &TimeSpec, entry: &Entry, ctx: &Context) -> (r: bool)
        ensures
            r == stamp_matches(entry@, ctx@, TimeKind::Modified, *time_spec, minute()),
    {
        Self::match_time(time_spec, entry, ctx, TimeKind::Modified, 60)
    }

    fn match_mtime(time_spec: &TimeSpec, entry: &Entry, ctx: &Context) -> (r: bool)
        ensures
            r == stamp_matches(entry@, ctx@, TimeKind::Modified, *time_spec, day()),
    {
        Self::match_time(time_spec, entry, ctx, TimeKind::Modified, 24 * 60 * 60)
    }

    fn match_anewer(filepath: &String, entry: &Entry, ctx: &Context) -> (r: bool)
        ensures
            r == newer_than(entry@, ctx@, filepath@, TimeKind::Accessed),
    {
        Self::compare_file_times(entry, ctx, filepath, TimeKind::Accessed)
    }

    fn match_cnewer(filepath: &String, entry: &Entry, ctx: &Context) -> (r: bool)
        ensures
            r == newer_than(entry@, ctx@, filepath@, TimeKind::Created),
    {
        Self::compare_file_times(entry, ctx, filepath, TimeKind::Created)
    }

    fn match_mnewer(filepath: &String, entry: &Entry, ctx: &Context) -> (r: bool)
        ensures
            r == newer_than(entry@, ctx@, filepath@, TimeKind::Modified),
    {
        Self::compare_file_times(entry, ctx, filepath, TimeKind::Modified)
    }

    fn match_newer(filepath: &String, entry: &Entry, ctx: &Context) -> (r: bool)
        ensures
            r == newer_than(entry@, ctx@, filepath@, TimeKind::Modified),
    {
        Self::match_mnewer(filepath, entry, ctx)
    }

    /// Whether an owner given by number or by name is the one with number
    /// `id` and name `name`: what reads as an unsigned integer of 32 bits
    /// is compared with the number, anything else with the name.
    pub fn match_owner(given: &String, id: u32, name: &Option<String>) -> (r: bool)
        ensures
            r == owner_matches(given@, id, crate::entry::text_of(*name)),
    {
        let chars = chars_of(given.as_str());
        match parse_unsigned(&chars, 0xffff_ffff) {
            Some(target) => id as u64 == target,
            None => match name {
                Some(name) => *name == *given,
                None => false,
            },
        }
    }

    fn match_user(username: &String, entry: &Entry) -> (r: bool)
        ensures
            r == (entry@.metadata matches Some(m) && m.owner matches Some(o) && owner_matches(
                username@,
                o.uid,
                entry@.user_name,
            )),
    {
        let metadata = match Self::get_metadata(entry) {
            Some(metadata) => metadata,
            None => {
                return false;
            },
        };
        match metadata.owner {
            Some(owner) => Self::match_owner(username, owner.uid, &entry.user_name),
            None => false,
        }
    }

    fn match_group(groupname: &String, entry: &Entry) -> (r: bool)
        ensures
            r == (entry@.metadata matches Some(m) && m.owner matches Some(o) && owner_matches(
                groupname@,
                o.gid,
                entry@.group_name,
            )),
    {
        let metadata = match Self::get_metadata(entry) {
            Some(metadata) => metadata,
            None => {
                return false;
            },
        };
        match metadata.owner {
            Some(owner) => Self::match_owner(groupname, owner.gid, &entry.group_name),
            None => false,
        }
    }

    fn match_uid(target_uid: u32, entry: &Entry) -> (r: bool)
        ensures
            r == (entry@.metadata matches Some(m) && m.owner matches Some(o) && o.uid
                == target_uid),
    {
        let metadata = match Self::get_metadata(entry) {
            Some(metadata) => metadata,
            None => {
                return false;
            },
        };
        match metadata.owner {
            Some(owner) => owner.uid == target_uid,
            None => false,
        }
    }

    fn match_gid(target_gid: u32, entry: &Entry) -> (r: bool)
        ensures
            r == (entry@.metadata matches Some(m) && m.owner matches Some(o) && o.gid
                == target_gid),
    {
        let metadata = match Self::get_metadata(entry) {
            Some(metadata) => metadata,
            None => {
                return false;
            },
        };
        match metadata.owner {
            Some(owner) => owner.gid == target_gid,
            None => false,
        }
    }

    fn match_perm(perm_spec: &PermSpec, entry: &Entry) -> (r: bool)
        ensures
            r == (entry@.metadata matches Some(m) && m.owner matches Some(o) && perm_matches(
                perm_spec@,
                o.mode,
            )),
    {
        let metadata = match Self::get_metadata(entry) {
            Some(metadata) => metadata,
            None => {
                return false;
            },
        };
        let owner = match metadata.owner {
            Some(owner) => owner,
            None => {
                return false;
            },
        };
        let file_perms = owner.mode & 0o777;
        match &perm_spec.term {
            PermTerm::Numeric(target_perms) => Self::match_numeric_perm(
                *target_perms,
                file_perms,
                &perm_spec.prefix,
            ),
            PermTerm::Symbolic(statements) => Self::match_symbolic_perm(
                statements.as_slice(),
                file_perms,
                &perm_spec.prefix,
            ),
        }
    }

    /// Whether the test holds of the entry.
    pub fn evaluate_test(test: &Test, entry: &Entry, ctx: &Context) -> (r: bool)
        ensures
            r == test_holds(test@, entry@, ctx@),
    {
        match test {
            Test::Path(pattern) => Self::match_path(pattern, entry, false),
            Test::Name(pattern) => Self::match_name(pattern, entry, false),
            Test::Iname(pattern) => Self::match_name(pattern, entry, true),
            Test::Regex(pattern) => Self::match_regex(pattern, entry),
            Test::True => true,
            Test::False => false,
            Test::Type(file_type) => Self::match_type(file_type, entry),
            Test::Size(size_spec) => Self::match_size(size_spec, entry),
            Test::Empty => Self::match_empty(entry),
            Test::Amin(time_spec) => Self::match_amin(time_spec, entry, ctx),
            Test::Atime(time_spec) => Self::match_atime(time_spec, entry, ctx),
            Test::Ctime(time_spec) => Self::match_ctime(time_spec, entry, ctx),
            Test::Cmin(time_spec) => Self::match_cmin(time_spec, entry, ctx),
            Test::Mmin(time_spec) => Self::match_mmin(time_spec, entry, ctx),
            Test::Mtime(time_spec) => Self::match_mtime(time_spec, entry, ctx),
            Test::Anewer(filepath) => Self::match_anewer(filepath, entry, ctx),
            Test::Cnewer(filepath) => Self::match_cnewer(filepath, entry, ctx),
            Test::Mnewer(filepath) => Self::match_mnewer(filepath, entry, ctx),
            Test::Newer(filepath) => Self::match_newer(filepath, entry, ctx),
            Test::Ipath(pattern) => Self::match_path(pattern, entry, true),
            Test::Iregex(pattern) => Self::match_iregex(pattern, entry),
            Test::User(username) => Self::match_user(username, entry),
            Test::Group(groupname) => Self::match_group(groupname, entry),
            Test::Uid(uid) => Self::match_uid(*uid, entry),
            Test::Gid(gid) => Self::match_gid(*gid, entry),
            Test::Perm(perm_spec) => Self::match_perm(perm_spec, entry),
        }
    }

    /// Whether the expression holds of the entry, in the given context. The
    /// right operand of `And` and `Or` is evaluated only where the left one
    /// does not decide.
    pub fn evaluate(expr: &Expr, entry: &Entry, ctx: &Context) -> (r: bool)
        ensures
            r == holds(expr@, entry@, ctx@),
            expr matches Expr::Not(inner) ==> r == !holds(inner@, entry@, ctx@),
            expr matches Expr::And(left, right) ==> r == (holds(left@, entry@, ctx@) && holds(
                right@,
                entry@,
                ctx@,
            )),
            expr matches Expr::Or(left, right) ==> r == (holds(left@, entry@, ctx@) || holds(
                right@,
                entry@,
                ctx@,
            )),
            expr matches Expr::Test(test) ==> r == test_holds(test@, entry@, ctx@),
        decreases expr,
    {
        match expr {
            Expr::Not(inner) => !Self::evaluate(inner, entry, ctx),
            Expr::And(left, right) => Self::evaluate(left, entry, ctx) && Self::evaluate(
                right,
                entry,
                ctx,
            ),
            Expr::Or(left, right) => Self::evaluate(left, entry, ctx) || Self::evaluate(
                right,
                entry,
                ctx,
            ),
            Expr::Test(test) => Self::evaluate_test(test, entry, ctx),
        }
    }
}

impl Interpreter {
    /// The reference file that a test of the entry's time of the given kind
    /// needs and the context does not answer for.
    fn missing_reference(
        entry: &Entry,
        ctx: &Context,
        filepath: &String,
        kind: TimeKind,
    ) -> (r: Option<String>)
        ensures
            crate::entry::text_of(r) == reference_needed(entry@, ctx@, filepath@, kind),
    {
        if Self::get_time(entry, kind).is_some() && ctx.find(filepath).is_none() {
            Some(filepath.clone())
        } else {
            None
        }
    }

    /// The first reference file that the evaluation of the expression
    /// consults and the context does not answer for. While there is one,
    /// the caller looks it up, records the answer in the context and asks
    /// again; once there is none, [`Interpreter::evaluate`] decides from
    /// what the context holds.
    pub fn next_lookup(expr: &Expr, entry: &Entry, ctx: &Context) -> (r: Option<String>)
        ensures
            crate::entry::text_of(r) == needs(expr@, entry@, ctx@),
        decreases expr,
    {
        match expr {
            Expr::Not(inner) => Self::next_lookup(inner, entry, ctx),
            Expr::And(left, right) => match Self::next_lookup(left, entry, ctx) {
                Some(path) => Some(path),
                None => if Self::evaluate(left, entry, ctx) {
                    Self::next_lookup(right, entry, ctx)
                } else {
                    None
                },
            },
            Expr::Or(left, right) => match Self::next_lookup(left, entry, ctx) {
                Some(path) => Some(path),
                None => if Self::evaluate(left, entry, ctx) {
                    None
                } else {
                    Self::next_lookup(right, entry, ctx)
                },
            },
            Expr::Test(test) => match test {
                Test::Anewer(filepath) => Self::missing_reference(
                    entry,
                    ctx,
                    filepath,
                    TimeKind::Accessed,
                ),
                Test::Cnewer(filepath) => Self::missing_reference(
                    entry,
                    ctx,
                    filepath,
                    TimeKind::Created,
                ),
                Test::Mnewer(filepath) => Self::missing_reference(
                    entry,
                    ctx,
                    filepath,
                    TimeKind::Modified,
                ),
                Test::Newer(filepath) => Self::missing_reference(
                    entry,
                    ctx,
                    filepath,
                    TimeKind::Modified,
                ),
                _ => None,
            },
        }
    }
}

} // verus!
