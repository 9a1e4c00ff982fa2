//! Laws of the grammar: how words are spelled and split, how operators
//! bind, and that every expression can be written and read back.

use vstd::prelude::*;
use crate::ast::{ExprView, FileType, SizeSuffix, TestView};
use crate::grammar::{
    Keyword, Parse, and_continues, and_expr, and_rest, expr, file_type_of, is_and, is_close, is_not,
    is_open, is_or, keyword, lemma_expr_advances, lemma_term_advances,
    lemma_unary_expr_advances, or_rest, program, size_suffix, term, unary_expr,
};
use crate::parser::ParseErrorView;
use crate::text::{is_space, unsigned, words, words_from};

verus! {

/// How the words of the grammar are spelled.
pub proof fn lemma_spelling()
    ensures
        "-true"@ == seq!['-', 't', 'r', 'u', 'e'],
        "-false"@ == seq!['-', 'f', 'a', 'l', 's', 'e'],
        "-empty"@ == seq!['-', 'e', 'm', 'p', 't', 'y'],
        "-path"@ == seq!['-', 'p', 'a', 't', 'h'],
        "-ipath"@ == seq!['-', 'i', 'p', 'a', 't', 'h'],
        "-name"@ == seq!['-', 'n', 'a', 'm', 'e'],
        "-iname"@ == seq!['-', 'i', 'n', 'a', 'm', 'e'],
        "-regex"@ == seq!['-', 'r', 'e', 'g', 'e', 'x'],
        "-iregex"@ == seq!['-', 'i', 'r', 'e', 'g', 'e', 'x'],
        "-type"@ == seq!['-', 't', 'y', 'p', 'e'],
        "-size"@ == seq!['-', 's', 'i', 'z', 'e'],
        "-amin"@ == seq!['-', 'a', 'm', 'i', 'n'],
        "-atime"@ == seq!['-', 'a', 't', 'i', 'm', 'e'],
        "-cmin"@ == seq!['-', 'c', 'm', 'i', 'n'],
        "-ctime"@ == seq!['-', 'c', 't', 'i', 'm', 'e'],
        "-mmin"@ == seq!['-', 'm', 'm', 'i', 'n'],
        "-mtime"@ == seq!['-', 'm', 't', 'i', 'm', 'e'],
        "-anewer"@ == seq!['-', 'a', 'n', 'e', 'w', 'e', 'r'],
        "-cnewer"@ == seq!['-', 'c', 'n', 'e', 'w', 'e', 'r'],
        "-mnewer"@ == seq!['-', 'm', 'n', 'e', 'w', 'e', 'r'],
        "-newer"@ == seq!['-', 'n', 'e', 'w', 'e', 'r'],
        "-user"@ == seq!['-', 'u', 's', 'e', 'r'],
        "-group"@ == seq!['-', 'g', 'r', 'o', 'u', 'p'],
        "-uid"@ == seq!['-', 'u', 'i', 'd'],
        "-gid"@ == seq!['-', 'g', 'i', 'd'],
        "-perm"@ == seq!['-', 'p', 'e', 'r', 'm'],
        "-and"@ == seq!['-', 'a', 'n', 'd'],
        "-or"@ == seq!['-', 'o', 'r'],
        "-not"@ == seq!['-', 'n', 'o', 't'],
        "!"@ == seq!['!'],
        "("@ == seq!['('],
        ")"@ == seq![')'],
{
    reveal_strlit("-true");
    assert("-true"@ =~= seq!['-', 't', 'r', 'u', 'e']);
    reveal_strlit("-false");
    assert("-false"@ =~= seq!['-', 'f', 'a', 'l', 's', 'e']);
    reveal_strlit("-empty");
    assert("-empty"@ =~= seq!['-', 'e', 'm', 'p', 't', 'y']);
    reveal_strlit("-path");
    assert("-path"@ =~= seq!['-', 'p', 'a', 't', 'h']);
    reveal_strlit("-ipath");
    assert("-ipath"@ =~= seq!['-', 'i', 'p', 'a', 't', 'h']);
    reveal_strlit("-name");
    assert("-name"@ =~= seq!['-', 'n', 'a', 'm', 'e']);
    reveal_strlit("-iname");
    assert("-iname"@ =~= seq!['-', 'i', 'n', 'a', 'm', 'e']);
    reveal_strlit("-regex");
    assert("-regex"@ =~= seq!['-', 'r', 'e', 'g', 'e', 'x']);
    reveal_strlit("-iregex");
    assert("-iregex"@ =~= seq!['-', 'i', 'r', 'e', 'g', 'e', 'x']);
    reveal_strlit("-type");
    assert("-type"@ =~= seq!['-', 't', 'y', 'p', 'e']);
    reveal_strlit("-size");
    assert("-size"@ =~= seq!['-', 's', 'i', 'z', 'e']);
    reveal_strlit("-amin");
    assert("-amin"@ =~= seq!['-', 'a', 'm', 'i', 'n']);
    reveal_strlit("-atime");
    assert("-atime"@ =~= seq!['-', 'a', 't', 'i', 'm', 'e']);
    reveal_strlit("-cmin");
    assert("-cmin"@ =~= seq!['-', 'c', 'm', 'i', 'n']);
    reveal_strlit("-ctime");
    assert("-ctime"@ =~= seq!['-', 'c', 't', 'i', 'm', 'e']);
    reveal_strlit("-mmin");
    assert("-mmin"@ =~= seq!['-', 'm', 'm', 'i', 'n']);
    reveal_strlit("-mtime");
    assert("-mtime"@ =~= seq!['-', 'm', 't', 'i', 'm', 'e']);
    reveal_strlit("-anewer");
    assert("-anewer"@ =~= seq!['-', 'a', 'n', 'e', 'w', 'e', 'r']);
    reveal_strlit("-cnewer");
    assert("-cnewer"@ =~= seq!['-', 'c', 'n', 'e', 'w', 'e', 'r']);
    reveal_strlit("-mnewer");
    assert("-mnewer"@ =~= seq!['-', 'm', 'n', 'e', 'w', 'e', 'r']);
    reveal_strlit("-newer");
    assert("-newer"@ =~= seq!['-', 'n', 'e', 'w', 'e', 'r']);
    reveal_strlit("-user");
    assert("-user"@ =~= seq!['-', 'u', 's', 'e', 'r']);
    reveal_strlit("-group");
    assert("-group"@ =~= seq!['-', 'g', 'r', 'o', 'u', 'p']);
    reveal_strlit("-uid");
    assert("-uid"@ =~= seq!['-', 'u', 'i', 'd']);
    reveal_strlit("-gid");
    assert("-gid"@ =~= seq!['-', 'g', 'i', 'd']);
    reveal_strlit("-perm");
    assert("-perm"@ =~= seq!['-', 'p', 'e', 'r', 'm']);
    reveal_strlit("-and");
    assert("-and"@ =~= seq!['-', 'a', 'n', 'd']);
    reveal_strlit("-or");
    assert("-or"@ =~= seq!['-', 'o', 'r']);
    reveal_strlit("-not");
    assert("-not"@ =~= seq!['-', 'n', 'o', 't']);
    reveal_strlit("!");
    assert("!"@ =~= seq!['!']);
    reveal_strlit("(");
    assert("("@ =~= seq!['(']);
    reveal_strlit(")");
    assert(")"@ =~= seq![')']);
}

/// Each keyword is spelled by its own word, and by no other keyword's.
pub proof fn lemma_keyword_words()
    ensures
        keyword("-true"@) == Some(Keyword::True),
        keyword("-false"@) == Some(Keyword::False),
        keyword("-empty"@) == Some(Keyword::Empty),
        keyword("-path"@) == Some(Keyword::Path),
        keyword("-ipath"@) == Some(Keyword::Ipath),
        keyword("-name"@) == Some(Keyword::Name),
        keyword("-iname"@) == Some(Keyword::Iname),
        keyword("-regex"@) == Some(Keyword::Regex),
        keyword("-iregex"@) == Some(Keyword::Iregex),
        keyword("-type"@) == Some(Keyword::Type),
        keyword("-size"@) == Some(Keyword::Size),
        keyword("-amin"@) == Some(Keyword::Amin),
        keyword("-atime"@) == Some(Keyword::Atime),
        keyword("-cmin"@) == Some(Keyword::Cmin),
        keyword("-ctime"@) == Some(Keyword::Ctime),
        keyword("-mmin"@) == Some(Keyword::Mmin),
        keyword("-mtime"@) == Some(Keyword::Mtime),
        keyword("-anewer"@) == Some(Keyword::Anewer),
        keyword("-cnewer"@) == Some(Keyword::Cnewer),
        keyword("-mnewer"@) == Some(Keyword::Mnewer),
        keyword("-newer"@) == Some(Keyword::Newer),
        keyword("-user"@) == Some(Keyword::User),
        keyword("-group"@) == Some(Keyword::Group),
        keyword("-uid"@) == Some(Keyword::Uid),
        keyword("-gid"@) == Some(Keyword::Gid),
        keyword("-perm"@) == Some(Keyword::Perm),
{
    lemma_spelling();
}

/// Whether `word` is one of the operators and brackets of the grammar.
pub open spec fn is_operator(word: Seq<char>) -> bool {
    is_not(word) || is_and(word) || is_or(word) || is_open(word) || is_close(word)
}

/// No keyword is spelled like an operator or a bracket.
pub proof fn lemma_keywords_are_not_operators(word: Seq<char>)
    requires
        keyword(word) is Some,
    ensures
        !is_operator(word),
{
    lemma_spelling();
}

/// The operators and brackets are different words.
pub proof fn lemma_operators_differ()
    ensures
        is_and("-and"@) && !is_or("-and"@) && !is_close("-and"@) && !is_open("-and"@) && !is_not(
            "-and"@,
        ),
        is_or("-or"@) && !is_and("-or"@) && !is_close("-or"@) && !is_open("-or"@) && !is_not(
            "-or"@,
        ),
        is_close(")"@) && !is_and(")"@) && !is_or(")"@) && !is_open(")"@) && !is_not(")"@),
        is_open("("@) && !is_and("("@) && !is_or("("@) && !is_close("("@) && !is_not("("@),
{
    lemma_spelling();
    assert(")"@[0] == ')' && "("@[0] == '(' && "!"@[0] == '!');
}

/// The letter of each kind of entry stands for that kind, and the letter of
/// each unit of size for that unit.
pub proof fn lemma_letters(kind: FileType, unit: SizeSuffix)
    ensures
        file_type_of(kind.letter()) == Some(kind),
        size_suffix(unit.letter()) == Some(unit),
{
}

/// Whether `word` can stand as a word of an expression: it is not empty and
/// holds no space.
pub open spec fn is_word(word: Seq<char>) -> bool {
    word.len() > 0 && forall|i: int| 0 <= i < word.len() ==> !is_space(#[trigger] word[i])
}

/// The words written one after the other, with a space before each.
pub open spec fn spaced(ws: Seq<Seq<char>>) -> Seq<char>
    decreases ws.len(),
{
    if ws.len() == 0 {
        Seq::empty()
    } else {
        seq![' '] + ws[0] + spaced(ws.skip(1))
    }
}

/// Characters that are not spaces go to the word that is being read.
proof fn lemma_word_is_read(word: Seq<char>, rest: Seq<char>, current: Seq<char>)
    requires
        forall|i: int| 0 <= i < word.len() ==> !is_space(#[trigger] word[i]),
    ensures
        words_from(word + rest, current) == words_from(rest, current + word),
    decreases word.len(),
{
    if word.len() == 0 {
        assert(word + rest =~= rest);
        assert(current + word =~= current);
    } else {
        let all = word + rest;
        assert(all[0] == word[0]);
        assert(!is_space(word[0]));
        assert(all.skip(1) =~= word.skip(1) + rest);
        assert forall|i: int| 0 <= i < word.skip(1).len() implies !is_space(
            #[trigger] word.skip(1)[i],
        ) by {
            assert(word.skip(1)[i] == word[i + 1]);
        }
        lemma_word_is_read(word.skip(1), rest, current.push(word[0]));
        assert(current.push(word[0]) + word.skip(1) =~= current + word);
    }
}

/// Splitting undoes joining: the words of a text made by writing words one
/// after the other, with one space between them, are those words; and a
/// space before the first changes nothing.
pub proof fn lemma_words_of_spaced(ws: Seq<Seq<char>>)
    requires
        forall|i: int| 0 <= i < ws.len() ==> is_word(#[trigger] ws[i]),
    ensures
        words(spaced(ws)) == ws,
        ws.len() > 0 ==> words(spaced(ws).skip(1)) == ws,
    decreases ws.len(),
{
    if ws.len() == 0 {
        assert(words(spaced(ws)) =~= ws);
    } else {
        let first = ws[0];
        let others = spaced(ws.skip(1));
        let text = spaced(ws);
        let none = Seq::<char>::empty();
        assert(is_word(first));
        assert forall|i: int| 0 <= i < ws.skip(1).len() implies is_word(
            #[trigger] ws.skip(1)[i],
        ) by {
            assert(ws.skip(1)[i] == ws[i + 1]);
        }
        lemma_words_of_spaced(ws.skip(1));
        // the space before the first word
        assert(text[0] == ' ');
        assert(text.skip(1) =~= first + others);
        assert(words(text) == words_from(first + others, none));
        // the first word
        lemma_word_is_read(first, others, none);
        assert(none + first =~= first);
        assert(words_from(first + others, none) == words_from(others, first));
        // what ends it: the end of the text, or the space before the next word
        if ws.len() == 1 {
            assert(ws.skip(1).len() == 0);
            assert(others.len() == 0);
            assert(words_from(others, first) =~= seq![first]);
            assert(seq![first] =~= ws);
        } else {
            let after = ws.skip(1)[0] + spaced(ws.skip(1).skip(1));
            assert(others[0] == ' ');
            assert(others.skip(1) =~= after);
            assert(words(others) == words_from(after, none));
            assert(words_from(others, first) == seq![first] + words_from(after, none));
            assert(seq![first] + ws.skip(1) =~= ws);
        }
    }
}

/// Writing `-and` between two operands of a conjunction says the same as
/// writing nothing: after the operands read so far, the words `rest` that
/// begin with a further operand are read the same with `-and` before them.
pub proof fn lemma_implicit_and(left: ExprView, rest: Seq<Seq<char>>)
    requires
        and_continues(rest),
        !is_and(rest[0]),
    ensures
        and_rest(left, seq!["-and"@] + rest) == and_rest(left, rest),
{
    let explicit = seq!["-and"@] + rest;
    lemma_operators_differ();
    assert(explicit[0] == "-and"@);
    assert(and_continues(explicit));
    assert(explicit.skip(1) =~= rest);
    lemma_unary_expr_advances(rest);
}

/// The outcome of reading `value` with the words `rest` left after it.
pub open spec fn read<T>(value: T, rest: Seq<Seq<char>>) -> Parse<T> {
    Ok((value, rest))
}

/// Whether `ws` are the words of the one test `t`: its keyword and, where
/// the keyword takes one, its argument.
pub open spec fn spells_test(ws: Seq<Seq<char>>, t: TestView) -> bool {
    crate::grammar::test(ws) == read(t, Seq::empty())
}

/// The words of a test are read as that test whatever words follow them.
pub proof fn lemma_test_then_more(ws: Seq<Seq<char>>, t: TestView, rest: Seq<Seq<char>>)
    requires
        spells_test(ws, t),
    ensures
        ws.len() >= 1,
        unary_expr(ws + rest) == read(ExprView::Test(t), rest),
{
    let all = ws + rest;
    assert(all[0] == ws[0]);
    assert(keyword(ws[0]) is Some);
    lemma_keywords_are_not_operators(all[0]);
    if crate::grammar::constant_test(keyword(ws[0])->0) is Some {
        assert(ws.skip(1).len() == 0);
        assert(all.skip(1) =~= rest);
    } else {
        assert(ws.skip(2).len() == 0);
        assert(all[1] == ws[1]);
        assert(all.skip(2) =~= rest);
    }
    assert(crate::grammar::test(all) == read(t, rest));
    assert(!is_open(all[0]));
    assert(!is_not(all[0]));
    assert(term(all) == read(ExprView::Test(t), rest));
}

/// One test before words that end a conjunction is a conjunction of its
/// own.
pub proof fn lemma_one_operand(ws: Seq<Seq<char>>, t: TestView, rest: Seq<Seq<char>>)
    requires
        spells_test(ws, t),
        !and_continues(rest),
    ensures
        and_expr(ws + rest) == read(ExprView::Test(t), rest),
{
    lemma_test_then_more(ws, t, rest);
    assert(and_rest(ExprView::Test(t), rest) == read(ExprView::Test(t), rest));
}

/// Two tests joined by `-and`, before words that end a conjunction, are the
/// conjunction of the two.
pub proof fn lemma_two_operands(
    wb: Seq<Seq<char>>,
    b: TestView,
    wc: Seq<Seq<char>>,
    c: TestView,
    rest: Seq<Seq<char>>,
)
    requires
        spells_test(wb, b),
        spells_test(wc, c),
        !and_continues(rest),
    ensures
        and_expr(wb + (seq!["-and"@] + (wc + rest))) == read(
            ExprView::And(Box::new(ExprView::Test(b)), Box::new(ExprView::Test(c))),
            rest,
        ),
{
    lemma_operators_differ();
    let eb = ExprView::Test(b);
    let ec = ExprView::Test(c);
    let bc = ExprView::And(Box::new(eb), Box::new(ec));
    let r2 = wc + rest;
    let r1 = seq!["-and"@] + r2;
    lemma_test_then_more(wb, b, r1);
    lemma_test_then_more(wc, c, rest);
    assert(r1[0] == "-and"@);
    assert(r1.skip(1) =~= r2);
    assert(and_continues(r1));
    assert(and_rest(bc, rest) == read(bc, rest));
    assert(and_rest(eb, r1) == read(bc, rest));
}

/// Adjacency means `-and`: for any two tests, `a b` and `a -and b` compile
/// to the same tree, the conjunction of the two, and so select the same
/// entries.
pub proof fn lemma_adjacency_means_and(
    wa: Seq<Seq<char>>,
    a: TestView,
    wb: Seq<Seq<char>>,
    b: TestView,
)
    requires
        spells_test(wa, a),
        spells_test(wb, b),
    ensures
        program(wa + wb) == Ok::<ExprView, ParseErrorView>(
            ExprView::And(Box::new(ExprView::Test(a)), Box::new(ExprView::Test(b))),
        ),
        program(wa + seq!["-and"@] + wb) == program(wa + wb),
{
    let ea = ExprView::Test(a);
    let eb = ExprView::Test(b);
    let ab = ExprView::And(Box::new(ea), Box::new(eb));
    let none = Seq::<Seq<char>>::empty();
    let r1 = wb + none;
    let implicit = wa + r1;
    let explicit = wa + (seq!["-and"@] + r1);
    assert(implicit =~= wa + wb);
    assert(explicit =~= wa + seq!["-and"@] + wb);
    lemma_two_operands(wa, a, wb, b, none);
    assert(or_rest(ab, none) == read(ab, none));
    assert(expr(explicit) == read(ab, none));
    lemma_test_then_more(wa, a, r1);
    lemma_test_then_more(wb, b, none);
    assert(r1[0] == wb[0]);
    lemma_keywords_are_not_operators(r1[0]);
    assert(and_continues(r1));
    assert(and_rest(ab, none) == read(ab, none));
    assert(and_rest(ea, r1) == read(ab, none));
    assert(and_expr(implicit) == read(ab, none));
    assert(expr(implicit) == read(ab, none));
}

/// `-and` binds tighter than `-or`: for any three tests, `a -or b -and c`
/// is the disjunction of `a` with the conjunction of `b` and `c`.
pub proof fn lemma_and_binds_tighter(
    wa: Seq<Seq<char>>,
    a: TestView,
    wb: Seq<Seq<char>>,
    b: TestView,
    wc: Seq<Seq<char>>,
    c: TestView,
)
    requires
        spells_test(wa, a),
        spells_test(wb, b),
        spells_test(wc, c),
    ensures
        program(wa + seq!["-or"@] + wb + seq!["-and"@] + wc) == Ok::<ExprView, ParseErrorView>(
            ExprView::Or(
                Box::new(ExprView::Test(a)),
                Box::new(
                    ExprView::And(Box::new(ExprView::Test(b)), Box::new(ExprView::Test(c))),
                ),
            ),
        ),
{
    lemma_operators_differ();
    let ea = ExprView::Test(a);
    let bc = ExprView::And(Box::new(ExprView::Test(b)), Box::new(ExprView::Test(c)));
    let abc = ExprView::Or(Box::new(ea), Box::new(bc));
    let none = Seq::<Seq<char>>::empty();
    let r1 = wb + (seq!["-and"@] + (wc + none));
    let r0 = seq!["-or"@] + r1;
    let all = wa + r0;
    assert(all =~= wa + seq!["-or"@] + wb + seq!["-and"@] + wc);
    assert(r0[0] == "-or"@);
    assert(r0.skip(1) =~= r1);
    lemma_test_then_more(wa, a, r0);
    lemma_one_operand(wa, a, r0);
    lemma_two_operands(wb, b, wc, c, none);
    assert(or_rest(abc, none) == read(abc, none));
    assert(or_rest(ea, r0) == read(abc, none));
    assert(expr(all) == read(abc, none));
}

/// Two tests joined by `-or` in parentheses are one term: the disjunction
/// of the two.
pub proof fn lemma_group_of_two(
    wa: Seq<Seq<char>>,
    a: TestView,
    wb: Seq<Seq<char>>,
    b: TestView,
    rest: Seq<Seq<char>>,
)
    requires
        spells_test(wa, a),
        spells_test(wb, b),
    ensures
        unary_expr(seq!["("@] + (wa + (seq!["-or"@] + (wb + (seq![")"@] + rest))))) == read(
            ExprView::Or(Box::new(ExprView::Test(a)), Box::new(ExprView::Test(b))),
            rest,
        ),
{
    lemma_operators_differ();
    let ea = ExprView::Test(a);
    let eb = ExprView::Test(b);
    let ab = ExprView::Or(Box::new(ea), Box::new(eb));
    let r3 = seq![")"@] + rest;
    let r2 = wb + r3;
    let r1 = seq!["-or"@] + r2;
    let r0 = wa + r1;
    let all = seq!["("@] + r0;
    assert(all[0] == "("@);
    assert(all.skip(1) =~= r0);
    assert(r1[0] == "-or"@);
    assert(r1.skip(1) =~= r2);
    assert(r3[0] == ")"@);
    assert(r3.skip(1) =~= rest);
    lemma_test_then_more(wa, a, r1);
    lemma_test_then_more(wb, b, r3);
    lemma_one_operand(wa, a, r1);
    lemma_one_operand(wb, b, r3);
    assert(or_rest(ab, r3) == read(ab, r3));
    assert(or_rest(ea, r1) == read(ab, r3));
    assert(expr(r0) == read(ab, r3));
    assert(term(all) == read(ab, rest));
}

/// Parentheses group: for any three tests, `( a -or b ) -and c` is the
/// conjunction of the disjunction of `a` and `b` with `c`.
pub proof fn lemma_parentheses_group(
    wa: Seq<Seq<char>>,
    a: TestView,
    wb: Seq<Seq<char>>,
    b: TestView,
    wc: Seq<Seq<char>>,
    c: TestView,
)
    requires
        spells_test(wa, a),
        spells_test(wb, b),
        spells_test(wc, c),
    ensures
        program(seq!["("@] + wa + seq!["-or"@] + wb + seq![")"@, "-and"@] + wc) == Ok::<
            ExprView,
            ParseErrorView,
        >(
            ExprView::And(
                Box::new(
                    ExprView::Or(Box::new(ExprView::Test(a)), Box::new(ExprView::Test(b))),
                ),
                Box::new(ExprView::Test(c)),
            ),
        ),
{
    lemma_operators_differ();
    let ab = ExprView::Or(Box::new(ExprView::Test(a)), Box::new(ExprView::Test(b)));
    let abc = ExprView::And(Box::new(ab), Box::new(ExprView::Test(c)));
    let none = Seq::<Seq<char>>::empty();
    let r5 = wc + none;
    let r4 = seq!["-and"@] + r5;
    let all = seq!["("@] + (wa + (seq!["-or"@] + (wb + (seq![")"@] + r4))));
    assert(all =~= seq!["("@] + wa + seq!["-or"@] + wb + seq![")"@, "-and"@] + wc);
    assert(r4[0] == "-and"@);
    assert(r4.skip(1) =~= r5);
    lemma_group_of_two(wa, a, wb, b, r4);
    lemma_test_then_more(wc, c, none);
    assert(and_continues(r4));
    assert(and_rest(abc, none) == read(abc, none));
    assert(and_rest(ab, r4) == read(abc, none));
    assert(all.len() > r4.len());
    assert(and_expr(all) == read(abc, none));
    assert(or_rest(abc, none) == read(abc, none));
    assert(expr(all) == read(abc, none));
}

/// A user number that is not a number stops the compilation: whatever
/// words follow, an expression that begins with `-uid` and a word that is
/// not an unsigned integer of 32 bits does not compile, and the diagnostic
/// names that word.
pub proof fn lemma_uid_needs_a_number(arg: Seq<char>, rest: Seq<Seq<char>>)
    requires
        unsigned(arg, u32::MAX as nat) is None,
    ensures
        program(seq!["-uid"@, arg] + rest) == Err::<ExprView, ParseErrorView>(
            ParseErrorView::InvalidNumber(arg),
        ),
{
    let all = seq!["-uid"@, arg] + rest;
    let error = ParseErrorView::InvalidNumber(arg);
    lemma_keyword_words();
    lemma_keywords_are_not_operators("-uid"@);
    assert(all[0] == "-uid"@);
    assert(all[1] == arg);
    assert(crate::grammar::test(all) == Err::<(TestView, Seq<Seq<char>>), ParseErrorView>(error));
    assert(term(all) == Err::<(ExprView, Seq<Seq<char>>), ParseErrorView>(error));
    assert(unary_expr(all) == Err::<(ExprView, Seq<Seq<char>>), ParseErrorView>(error));
    assert(and_expr(all) == Err::<(ExprView, Seq<Seq<char>>), ParseErrorView>(error));
    assert(expr(all) == Err::<(ExprView, Seq<Seq<char>>), ParseErrorView>(error));
}

/// Whether an expression can end before `rest`: at the end of the words, or
/// at a closing parenthesis.
pub open spec fn ends_expr(rest: Seq<Seq<char>>) -> bool {
    rest.len() == 0 || is_close(rest[0])
}

/// A negated term, where an expression can end, is the negation.
pub proof fn lemma_read_not(group: Seq<Seq<char>>, x: ExprView, rest: Seq<Seq<char>>)
    requires
        term(group) == read(x, rest),
        ends_expr(rest),
    ensures
        expr(seq!["-not"@] + group) == read(ExprView::Not(Box::new(x)), rest),
{
    lemma_operators_differ();
    lemma_term_advances(group);
    let e = ExprView::Not(Box::new(x));
    let all = seq!["-not"@] + group;
    assert(is_not(all[0]));
    assert(all.skip(1) =~= group);
    assert(unary_expr(all) == read(e, rest));
    assert(and_rest(e, rest) == read(e, rest));
    assert(and_expr(all) == read(e, rest));
    assert(or_rest(e, rest) == read(e, rest));
}

/// Two operands joined by `-and`, where an expression can end, are the
/// conjunction of the two.
pub proof fn lemma_read_and(
    all: Seq<Seq<char>>,
    a: ExprView,
    right: Seq<Seq<char>>,
    b: ExprView,
    rest: Seq<Seq<char>>,
)
    requires
        unary_expr(all) == read(a, seq!["-and"@] + right),
        unary_expr(right) == read(b, rest),
        ends_expr(rest),
    ensures
        expr(all) == read(ExprView::And(Box::new(a), Box::new(b)), rest),
{
    lemma_operators_differ();
    lemma_unary_expr_advances(all);
    lemma_unary_expr_advances(right);
    let e = ExprView::And(Box::new(a), Box::new(b));
    let middle = seq!["-and"@] + right;
    assert(middle[0] == "-and"@);
    assert(middle.skip(1) =~= right);
    assert(and_continues(middle));
    assert(and_rest(e, rest) == read(e, rest));
    assert(and_rest(a, middle) == read(e, rest));
    assert(and_expr(all) == read(e, rest));
    assert(or_rest(e, rest) == read(e, rest));
}

/// Two operands joined by `-or`, where an expression can end, are the
/// disjunction of the two.
pub proof fn lemma_read_or(
    all: Seq<Seq<char>>,
    a: ExprView,
    right: Seq<Seq<char>>,
    b: ExprView,
    rest: Seq<Seq<char>>,
)
    requires
        unary_expr(all) == read(a, seq!["-or"@] + right),
        unary_expr(right) == read(b, rest),
        ends_expr(rest),
    ensures
        expr(all) == read(ExprView::Or(Box::new(a), Box::new(b)), rest),
{
    lemma_operators_differ();
    lemma_unary_expr_advances(all);
    lemma_unary_expr_advances(right);
    let e = ExprView::Or(Box::new(a), Box::new(b));
    let middle = seq!["-or"@] + right;
    assert(middle[0] == "-or"@);
    assert(middle.skip(1) =~= right);
    assert(!and_continues(middle));
    assert(and_rest(a, middle) == read(a, middle));
    assert(and_expr(all) == read(a, middle));
    assert(and_rest(b, rest) == read(b, rest));
    assert(and_expr(right) == read(b, rest));
    assert(or_rest(e, rest) == read(e, rest));
    assert(or_rest(a, middle) == read(e, rest));
}

/// The expression written in full: each test by the words that `write`
/// gives it, and each operand of an operator in parentheses.
pub open spec fn written(e: ExprView, write: spec_fn(TestView) -> Seq<Seq<char>>) -> Seq<
    Seq<char>,
>
    decreases e,
{
    match e {
        ExprView::Test(t) => write(t),
        ExprView::Not(x) => seq!["-not"@] + (seq!["("@] + (written(*x, write) + seq![")"@])),
        ExprView::And(a, b) => (seq!["("@] + (written(*a, write) + seq![")"@])) + (seq![
            "-and"@,
        ] + (seq!["("@] + (written(*b, write) + seq![")"@]))),
        ExprView::Or(a, b) => (seq!["("@] + (written(*a, write) + seq![")"@])) + (seq!["-or"@]
            + (seq!["("@] + (written(*b, write) + seq![")"@]))),
    }
}

/// Whether `write` gives each test of the expression words that spell it.
pub open spec fn writes_tests(e: ExprView, write: spec_fn(TestView) -> Seq<Seq<char>>) -> bool
    decreases e,
{
    match e {
        ExprView::Test(t) => spells_test(write(t), t),
        ExprView::Not(x) => writes_tests(*x, write),
        ExprView::And(a, b) => writes_tests(*a, write) && writes_tests(*b, write),
        ExprView::Or(a, b) => writes_tests(*a, write) && writes_tests(*b, write),
    }
}

/// An expression in parentheses is read as one term, whatever follows.
pub proof fn lemma_written_group(
    x: ExprView,
    write: spec_fn(TestView) -> Seq<Seq<char>>,
    rest: Seq<Seq<char>>,
)
    requires
        writes_tests(x, write),
    ensures
        term(seq!["("@] + (written(x, write) + (seq![")"@] + rest))) == read(x, rest),
        unary_expr(seq!["("@] + (written(x, write) + (seq![")"@] + rest))) == read(x, rest),
    decreases x, 1nat,
{
    lemma_operators_differ();
    let after = seq![")"@] + rest;
    let body = written(x, write) + after;
    let group = seq!["("@] + body;
    assert(after[0] == ")"@);
    assert(after.skip(1) =~= rest);
    lemma_written_then(x, write, after);
    assert(group[0] == "("@);
    assert(group.skip(1) =~= body);
    assert(term(group) == read(x, rest));
}

/// An expression written in full is read back as itself where an
/// expression can end.
pub proof fn lemma_written_then(
    e: ExprView,
    write: spec_fn(TestView) -> Seq<Seq<char>>,
    rest: Seq<Seq<char>>,
)
    requires
        writes_tests(e, write),
        ends_expr(rest),
    ensures
        expr(written(e, write) + rest) == read(e, rest),
    decreases e, 0nat,
{
    let all = written(e, write) + rest;
    match e {
        ExprView::Test(t) => {
            lemma_operators_differ();
            lemma_test_then_more(write(t), t, rest);
            lemma_one_operand(write(t), t, rest);
            assert(or_rest(e, rest) == read(e, rest));
        },
        ExprView::Not(x) => {
            let group = seq!["("@] + (written(*x, write) + (seq![")"@] + rest));
            assert(all =~= seq!["-not"@] + group);
            lemma_written_group(*x, write, rest);
            lemma_read_not(group, *x, rest);
        },
        ExprView::And(a, b) => {
            let right = seq!["("@] + (written(*b, write) + (seq![")"@] + rest));
            let middle = seq!["-and"@] + right;
            assert(all =~= seq!["("@] + (written(*a, write) + (seq![")"@] + middle)));
            lemma_written_group(*a, write, middle);
            lemma_written_group(*b, write, rest);
            lemma_read_and(all, *a, right, *b, rest);
        },
        ExprView::Or(a, b) => {
            let right = seq!["("@] + (written(*b, write) + (seq![")"@] + rest));
            let middle = seq!["-or"@] + right;
            assert(all =~= seq!["("@] + (written(*a, write) + (seq![")"@] + middle)));
            lemma_written_group(*a, write, middle);
            lemma_written_group(*b, write, rest);
            lemma_read_or(all, *a, right, *b, rest);
        },
    }
}

/// Every expression can be written, and what is written compiles back to
/// it: the words of an expression written in full are read as that
/// expression.
pub proof fn lemma_written_compiles_back(e: ExprView, write: spec_fn(TestView) -> Seq<Seq<char>>)
    requires
        writes_tests(e, write),
    ensures
        program(written(e, write)) == Ok::<ExprView, ParseErrorView>(e),
{
    let none = Seq::<Seq<char>>::empty();
    lemma_written_then(e, write, none);
    assert(written(e, write) + none =~= written(e, write));
    lemma_expr_advances(written(e, write));
}

} // verus!
