//! The written form of a configuration, and the laws that tie it to the
//! parser: what is written is what is read, in whatever order it is
//! written, and nothing can be written twice.

use crate::config::{
    lemma_configuration_extensional, lemma_with_sets_one, ArgName, ConfigurationView, ValueView,
};
use crate::parser::{
    missing, spec_clauses, spec_items, spec_mark_at, spec_parse_clauses, spec_parse_list,
    spec_text_at, spec_value, Expected, Mark, ParseErrorKindView, ParseErrorView,
};
use crate::token::TokenView;
use vstd::prelude::*;

verus! {

/// One clause of an invocation: `name = value`.
pub struct ClauseView {
    pub name: ArgName,
    pub value: ValueView,
}

/// The tokens of a list's items: the literals, with a comma between each
/// two.
pub open spec fn render_items(items: Seq<Seq<char>>) -> Seq<TokenView>
    decreases items.len(),
{
    if items.len() == 0 {
        Seq::empty()
    } else if items.len() == 1 {
        seq![TokenView::Text(items[0])]
    } else {
        seq![TokenView::Text(items[0]), TokenView::Comma] + render_items(items.drop_first())
    }
}

/// The tokens of a value: one literal, or the items of a list in brackets.
pub open spec fn render_value(value: ValueView) -> Seq<TokenView> {
    match value {
        ValueView::Text(text) => seq![TokenView::Text(text)],
        ValueView::List(items) => seq![TokenView::Open] + render_items(items) + seq![
            TokenView::Close,
        ],
    }
}

/// The tokens of a clause: the name, `=`, the value.
pub open spec fn render_clause(clause: ClauseView) -> Seq<TokenView> {
    seq![TokenView::Ident(clause.name.spec_text()), TokenView::Equals] + render_value(clause.value)
}

/// The tokens of an invocation: the clauses, with a comma between each two.
pub open spec fn render(clauses: Seq<ClauseView>) -> Seq<TokenView>
    decreases clauses.len(),
{
    if clauses.len() == 0 {
        Seq::empty()
    } else if clauses.len() == 1 {
        render_clause(clauses[0])
    } else {
        render_clause(clauses[0]) + seq![TokenView::Comma] + render(clauses.drop_first())
    }
}

/// `config` with the clauses written into it, one after the other.
pub open spec fn build(config: ConfigurationView, clauses: Seq<ClauseView>) -> ConfigurationView
    decreases clauses.len(),
{
    if clauses.len() == 0 {
        config
    } else {
        build(config.with(clauses[0].name, clauses[0].value), clauses.drop_first())
    }
}

/// Whether the clauses can stand together in one invocation: each value
/// has the shape its name takes, and no name occurs twice.
pub open spec fn well_formed(clauses: Seq<ClauseView>) -> bool {
    &&& forall|i: int|
        0 <= i < clauses.len() ==> ConfigurationView::accepts(
            (#[trigger] clauses[i]).name,
            clauses[i].value,
        )
    &&& forall|i: int, j: int|
        0 <= i < j < clauses.len() ==> (#[trigger] clauses[i]).name != (#[trigger] clauses[j]).name
}

/// Whether one of the clauses is named `name`.
pub open spec fn names(clauses: Seq<ClauseView>, name: ArgName) -> bool {
    exists|i: int| 0 <= i < clauses.len() && (#[trigger] clauses[i]).name == name
}

/// Whether `tokens` holds `piece` from `pos` on.
pub open spec fn holds_at(tokens: Seq<TokenView>, pos: int, piece: Seq<TokenView>) -> bool {
    &&& 0 <= pos
    &&& pos + piece.len() <= tokens.len()
    &&& tokens.subrange(pos, pos + piece.len()) == piece
}

/// A bracketed list that is written at `pos` is read as written.
pub proof fn lemma_items_are_read(
    tokens: Seq<TokenView>,
    pos: int,
    read: Seq<Seq<char>>,
    items: Seq<Seq<char>>,
)
    requires
        holds_at(tokens, pos, render_items(items) + seq![TokenView::Close]),
    ensures
        spec_items(tokens, pos, read, true) == Ok::<(Seq<Seq<char>>, int), ParseErrorView>(
            (read + items, pos + render_items(items).len() + 1),
        ),
    decreases items.len(),
{
    let piece = render_items(items) + seq![TokenView::Close];
    assert forall|k: int| 0 <= k < piece.len() implies tokens[pos + k] == piece[k] by {
        assert(tokens.subrange(pos, pos + piece.len())[k] == tokens[pos + k]);
    }
    if items.len() == 0 {
        assert(tokens[pos] == piece[0]);
        assert(read + items =~= read);
    } else if items.len() == 1 {
        assert(tokens[pos] == piece[0]);
        assert(tokens[pos + 1] == piece[1]);
        assert(read.push(items[0]) =~= read + items);
    } else {
        let rest = items.drop_first();
        let tail = render_items(rest) + seq![TokenView::Close];
        assert(tokens[pos] == piece[0]);
        assert(tokens[pos + 1] == piece[1]);
        assert(piece =~= seq![TokenView::Text(items[0]), TokenView::Comma] + tail);
        assert forall|k: int| 0 <= k < tail.len() implies tokens.subrange(
            pos + 2,
            pos + 2 + tail.len(),
        )[k] == tail[k] by {
            assert(tokens[pos + (k + 2)] == piece[k + 2]);
        }
        assert(tokens.subrange(pos + 2, pos + 2 + tail.len()) =~= tail);
        lemma_items_are_read(tokens, pos + 2, read.push(items[0]), rest);
        assert(read.push(items[0]) + rest =~= read + items);
    }
}

/// A bare list that is written from `pos` to the end of the input is read
/// as written.
pub proof fn lemma_bare_items_are_read(
    tokens: Seq<TokenView>,
    pos: int,
    read: Seq<Seq<char>>,
    items: Seq<Seq<char>>,
)
    requires
        holds_at(tokens, pos, render_items(items)),
        pos + render_items(items).len() == tokens.len(),
    ensures
        spec_items(tokens, pos, read, false) == Ok::<(Seq<Seq<char>>, int), ParseErrorView>(
            (read + items, tokens.len() as int),
        ),
    decreases items.len(),
{
    let piece = render_items(items);
    assert forall|k: int| 0 <= k < piece.len() implies tokens[pos + k] == piece[k] by {
        assert(tokens.subrange(pos, pos + piece.len())[k] == tokens[pos + k]);
    }
    if items.len() == 0 {
        assert(read + items =~= read);
    } else if items.len() == 1 {
        assert(tokens[pos] == piece[0]);
        assert(read.push(items[0]) =~= read + items);
    } else {
        let rest = items.drop_first();
        let tail = render_items(rest);
        assert(tokens[pos] == piece[0]);
        assert(tokens[pos + 1] == piece[1]);
        assert(piece =~= seq![TokenView::Text(items[0]), TokenView::Comma] + tail);
        assert forall|k: int| 0 <= k < tail.len() implies tokens.subrange(
            pos + 2,
            pos + 2 + tail.len(),
        )[k] == tail[k] by {
            assert(tokens[pos + (k + 2)] == piece[k + 2]);
        }
        assert(tokens.subrange(pos + 2, pos + 2 + tail.len()) =~= tail);
        lemma_bare_items_are_read(tokens, pos + 2, read.push(items[0]), rest);
        assert(read.push(items[0]) + rest =~= read + items);
    }
}

/// The tokens of `tokens` at the places where `piece` is held.
proof fn lemma_held_tokens(tokens: Seq<TokenView>, pos: int, piece: Seq<TokenView>)
    requires
        holds_at(tokens, pos, piece),
    ensures
        forall|k: int| 0 <= k < piece.len() ==> tokens[pos + k] == #[trigger] piece[k],
{
    assert forall|k: int| 0 <= k < piece.len() implies tokens[pos + k] == #[trigger] piece[k] by {
        assert(tokens.subrange(pos, pos + piece.len())[k] == tokens[pos + k]);
    }
}

/// A piece that is held holds its own parts where they stand in it.
proof fn lemma_held_part(
    tokens: Seq<TokenView>,
    pos: int,
    piece: Seq<TokenView>,
    from: int,
    part: Seq<TokenView>,
)
    requires
        holds_at(tokens, pos, piece),
        0 <= from,
        from + part.len() <= piece.len(),
        piece.subrange(from, from + part.len()) == part,
    ensures
        holds_at(tokens, pos + from, part),
{
    lemma_held_tokens(tokens, pos, piece);
    assert forall|k: int| 0 <= k < part.len() implies tokens.subrange(
        pos + from,
        pos + from + part.len(),
    )[k] == part[k] by {
        assert(piece.subrange(from, from + part.len())[k] == piece[from + k]);
        assert(tokens[pos + (from + k)] == piece[from + k]);
    }
    assert(tokens.subrange(pos + from, pos + from + part.len()) =~= part);
}

/// A clause that is written at `pos` for a name not yet written is read
/// as written; what follows it decides how the parser goes on.
pub proof fn lemma_clause_is_read(
    tokens: Seq<TokenView>,
    pos: int,
    config: ConfigurationView,
    clause: ClauseView,
)
    requires
        holds_at(tokens, pos, render_clause(clause)),
        ConfigurationView::accepts(clause.name, clause.value),
        !config.is_set(clause.name),
    ensures
        ({
            let next = pos + render_clause(clause).len();
            let written = config.with(clause.name, clause.value);
            spec_clauses(tokens, pos, config) == if next >= tokens.len() {
                Ok::<ConfigurationView, ParseErrorView>(written)
            } else if tokens[next] == TokenView::Comma {
                spec_clauses(tokens, next + 1, written)
            } else {
                Err::<ConfigurationView, ParseErrorView>(missing(next, Expected::Comma))
            }
        }),
{
    let piece = render_clause(clause);
    lemma_held_tokens(tokens, pos, piece);
    clause.name.lemma_text_round_trip();
    assert(tokens[pos] == piece[0]);
    assert(tokens[pos + 1] == piece[1]);
    assert(spec_mark_at(tokens, pos + 1) == Some(Mark::Equals));
    match clause.value {
        ValueView::Text(text) => {
            assert(tokens[pos + 2] == piece[2]);
            assert(spec_text_at(tokens, pos + 2) == Some(text));
            assert(spec_value(tokens, pos + 2, clause.name) == Ok::<(ValueView, int), ParseErrorView>(
                (clause.value, pos + 3),
            ));
        },
        ValueView::List(items) => {
            assert(tokens[pos + 2] == piece[2]);
            let inner = render_items(items) + seq![TokenView::Close];
            assert(piece.subrange(3, 3 + inner.len() as int) =~= inner);
            lemma_held_part(tokens, pos, piece, 3, inner);
            lemma_items_are_read(tokens, pos + 3, Seq::empty(), items);
            assert(Seq::<Seq<char>>::empty() + items =~= items);
            assert(spec_value(tokens, pos + 2, clause.name) == Ok::<(ValueView, int), ParseErrorView>(
                (clause.value, pos + piece.len()),
            ));
        },
    }
}

/// The clauses behind the first are well formed where all of them are.
proof fn lemma_rest_is_well_formed(clauses: Seq<ClauseView>)
    requires
        well_formed(clauses),
        clauses.len() > 0,
    ensures
        well_formed(clauses.drop_first()),
        !names(clauses.drop_first(), clauses[0].name),
{
    let rest = clauses.drop_first();
    assert forall|i: int| 0 <= i < rest.len() implies ConfigurationView::accepts(
        (#[trigger] rest[i]).name,
        rest[i].value,
    ) by {
        assert(rest[i] == clauses[i + 1]);
    }
    assert forall|i: int, j: int| 0 <= i < j < rest.len() implies (#[trigger] rest[i]).name != (
    #[trigger] rest[j]).name by {
        assert(rest[i] == clauses[i + 1]);
        assert(rest[j] == clauses[j + 1]);
    }
    assert forall|i: int| 0 <= i < rest.len() implies (#[trigger] rest[i]).name
        != clauses[0].name by {
        assert(rest[i] == clauses[i + 1]);
    }
}

/// Clauses that are written from `pos` to the end of the input, for names
/// not yet written, are read as written.
pub proof fn lemma_clauses_are_read(
    tokens: Seq<TokenView>,
    pos: int,
    config: ConfigurationView,
    clauses: Seq<ClauseView>,
)
    requires
        holds_at(tokens, pos, render(clauses)),
        pos + render(clauses).len() == tokens.len(),
        well_formed(clauses),
        forall|name: ArgName| names(clauses, name) ==> !config.is_set(name),
    ensures
        spec_clauses(tokens, pos, config) == Ok::<ConfigurationView, ParseErrorView>(
            build(config, clauses),
        ),
    decreases clauses.len(),
{
    if clauses.len() > 0 {
        let first = clauses[0];
        let rest = clauses.drop_first();
        let written = config.with(first.name, first.value);
        let head = render_clause(first);
        assert(names(clauses, first.name));
        lemma_rest_is_well_formed(clauses);
        assert(build(config, clauses) == build(written, rest));
        if clauses.len() == 1 {
            assert(render(clauses) == head);
            lemma_clause_is_read(tokens, pos, config, first);
            assert(rest.len() == 0);
            assert(build(written, rest) == written);
        } else {
            let piece = render(clauses);
            assert(piece =~= head + seq![TokenView::Comma] + render(rest));
            assert(piece.subrange(0, head.len() as int) =~= head);
            lemma_held_part(tokens, pos, piece, 0, head);
            lemma_clause_is_read(tokens, pos, config, first);
            lemma_held_tokens(tokens, pos, piece);
            assert(tokens[pos + head.len()] == piece[head.len() as int]);
            let tail = render(rest);
            assert(piece.subrange(head.len() as int + 1, head.len() as int + 1 + tail.len() as int) =~= tail);
            lemma_held_part(tokens, pos, piece, head.len() as int + 1, tail);
            assert forall|name: ArgName| names(rest, name) implies !written.is_set(name) by {
                let i = choose|i: int| 0 <= i < rest.len() && (#[trigger] rest[i]).name == name;
                assert(rest[i] == clauses[i + 1]);
                assert(names(clauses, name));
                lemma_with_sets_one(config, first.name, first.value, name);
            }
            lemma_clauses_are_read(tokens, pos + head.len() + 1, written, rest);
        }
    }
}

/// What is written is what is read: the rendering of clauses that can
/// stand together parses, and gives the configuration with exactly these
/// clauses written.
pub proof fn lemma_written_is_read(clauses: Seq<ClauseView>)
    requires
        well_formed(clauses),
    ensures
        spec_parse_clauses(render(clauses)) == Ok::<ConfigurationView, ParseErrorView>(
            build(ConfigurationView::empty(), clauses),
        ),
{
    let tokens = render(clauses);
    assert(tokens.subrange(0, tokens.len() as int) =~= tokens);
    lemma_clauses_are_read(tokens, 0, ConfigurationView::empty(), clauses);
}

/// Writing clauses leaves every option that none of them names as it was.
pub proof fn lemma_build_keeps(config: ConfigurationView, clauses: Seq<ClauseView>, name: ArgName)
    requires
        well_formed(clauses),
        !names(clauses, name),
    ensures
        build(config, clauses).get(name) == config.get(name),
        build(config, clauses).is_set(name) == config.is_set(name),
    decreases clauses.len(),
{
    if clauses.len() > 0 {
        let first = clauses[0];
        let rest = clauses.drop_first();
        lemma_rest_is_well_formed(clauses);
        assert(names(clauses, first.name));
        assert(!names(rest, name)) by {
            if names(rest, name) {
                let i = choose|i: int| 0 <= i < rest.len() && (#[trigger] rest[i]).name == name;
                assert(clauses[i + 1] == rest[i]);
            }
        }
        lemma_with_sets_one(config, first.name, first.value, name);
        lemma_build_keeps(config.with(first.name, first.value), rest, name);
    }
}

/// Writing clauses that can stand together sets each named option to the
/// value of its clause.
pub proof fn lemma_build_reads(config: ConfigurationView, clauses: Seq<ClauseView>, i: int)
    requires
        well_formed(clauses),
        0 <= i < clauses.len(),
    ensures
        build(config, clauses).get(clauses[i].name) == Some(clauses[i].value),
        build(config, clauses).is_set(clauses[i].name),
    decreases clauses.len(),
{
    let first = clauses[0];
    let rest = clauses.drop_first();
    let written = config.with(first.name, first.value);
    lemma_rest_is_well_formed(clauses);
    if i == 0 {
        lemma_with_sets_one(config, first.name, first.value, first.name);
        lemma_build_keeps(written, rest, first.name);
    } else {
        assert(rest[i - 1] == clauses[i]);
        lemma_build_reads(written, rest, i - 1);
    }
}

/// The order of the clauses is irrelevant: two invocations that hold the
/// same clauses give the same configuration.
pub proof fn lemma_order_is_irrelevant(first: Seq<ClauseView>, second: Seq<ClauseView>)
    requires
        well_formed(first),
        well_formed(second),
        forall|i: int| 0 <= i < first.len() ==> second.contains(#[trigger] first[i]),
        forall|j: int| 0 <= j < second.len() ==> first.contains(#[trigger] second[j]),
    ensures
        build(ConfigurationView::empty(), first) == build(ConfigurationView::empty(), second),
        spec_parse_clauses(render(first)) == spec_parse_clauses(render(second)),
{
    let empty = ConfigurationView::empty();
    let a = build(empty, first);
    let b = build(empty, second);
    assert forall|name: ArgName| a.get(name) == b.get(name) by {
        if names(first, name) {
            let i = choose|i: int| 0 <= i < first.len() && (#[trigger] first[i]).name == name;
            assert(second.contains(first[i]));
            let j = choose|j: int| 0 <= j < second.len() && second[j] == first[i];
            lemma_build_reads(empty, first, i);
            lemma_build_reads(empty, second, j);
        } else {
            if names(second, name) {
                let j = choose|j: int| 0 <= j < second.len() && (#[trigger] second[j]).name == name;
                assert(first.contains(second[j]));
                let i = choose|i: int| 0 <= i < first.len() && first[i] == second[j];
                assert(first[i].name == name);
            }
            lemma_build_keeps(empty, first, name);
            lemma_build_keeps(empty, second, name);
        }
    }
    lemma_configuration_extensional(a, b);
    lemma_written_is_read(first);
    lemma_written_is_read(second);
}

/// Clauses that are written at `pos` and followed by a comma are read as
/// written, and the parser goes on behind the comma.
pub proof fn lemma_clauses_are_passed(
    tokens: Seq<TokenView>,
    pos: int,
    config: ConfigurationView,
    clauses: Seq<ClauseView>,
)
    requires
        clauses.len() > 0,
        holds_at(tokens, pos, render(clauses) + seq![TokenView::Comma]),
        well_formed(clauses),
        forall|name: ArgName| names(clauses, name) ==> !config.is_set(name),
    ensures
        spec_clauses(tokens, pos, config) == spec_clauses(
            tokens,
            pos + render(clauses).len() + 1,
            build(config, clauses),
        ),
    decreases clauses.len(),
{
    let first = clauses[0];
    let rest = clauses.drop_first();
    let written = config.with(first.name, first.value);
    let head = render_clause(first);
    let piece = render(clauses) + seq![TokenView::Comma];
    assert(names(clauses, first.name));
    lemma_rest_is_well_formed(clauses);
    lemma_held_tokens(tokens, pos, piece);
    assert(build(config, clauses) == build(written, rest));
    if clauses.len() == 1 {
        assert(render(clauses) == head);
        assert(piece.subrange(0, head.len() as int) =~= head);
        lemma_held_part(tokens, pos, piece, 0, head);
        lemma_clause_is_read(tokens, pos, config, first);
        assert(tokens[pos + head.len()] == piece[head.len() as int]);
        assert(rest.len() == 0);
        assert(build(written, rest) == written);
    } else {
        let tail = render(rest) + seq![TokenView::Comma];
        assert(render(clauses) == head + seq![TokenView::Comma] + render(rest));
        assert(piece =~= head + seq![TokenView::Comma] + tail);
        assert(piece.subrange(0, head.len() as int) =~= head);
        lemma_held_part(tokens, pos, piece, 0, head);
        lemma_clause_is_read(tokens, pos, config, first);
        assert(tokens[pos + head.len()] == piece[head.len() as int]);
        assert(piece.subrange(head.len() as int + 1, head.len() as int + 1 + tail.len() as int) =~= tail);
        lemma_held_part(tokens, pos, piece, head.len() as int + 1, tail);
        assert forall|name: ArgName| names(rest, name) implies !written.is_set(name) by {
            let i = choose|i: int| 0 <= i < rest.len() && (#[trigger] rest[i]).name == name;
            assert(rest[i] == clauses[i + 1]);
            assert(names(clauses, name));
            lemma_with_sets_one(config, first.name, first.value, name);
        }
        lemma_clauses_are_passed(tokens, pos + head.len() + 1, written, rest);
    }
}

/// Nothing can be written twice: where clauses that can stand together
/// are followed by a second writing of one of their names, whatever comes
/// behind it, the invocation is refused as a duplicate of that name, at
/// the second name.
pub proof fn lemma_second_writing_is_refused(
    clauses: Seq<ClauseView>,
    name: ArgName,
    rest: Seq<TokenView>,
)
    requires
        well_formed(clauses),
        names(clauses, name),
    ensures
        spec_parse_clauses(
            render(clauses) + seq![
                TokenView::Comma,
                TokenView::Ident(name.spec_text()),
                TokenView::Equals,
            ] + rest,
        ) == Err::<ConfigurationView, ParseErrorView>(
            ParseErrorView {
                position: render(clauses).len() as int + 1,
                kind: ParseErrorKindView::Duplicate(name),
            },
        ),
{
    let written = render(clauses);
    let second = seq![TokenView::Comma, TokenView::Ident(name.spec_text()), TokenView::Equals];
    let tokens = written + second + rest;
    let piece = written + seq![TokenView::Comma];
    let at = written.len() as int;
    assert(tokens.subrange(0, piece.len() as int) =~= piece);
    lemma_clauses_are_passed(tokens, 0, ConfigurationView::empty(), clauses);
    let i = choose|i: int| 0 <= i < clauses.len() && (#[trigger] clauses[i]).name == name;
    lemma_build_reads(ConfigurationView::empty(), clauses, i);
    name.lemma_text_round_trip();
    assert(tokens[at + 1] == second[1]);
    assert(tokens[at + 2] == second[2]);
    assert(spec_mark_at(tokens, at + 2) == Some(Mark::Equals));
}

/// The secondary form means what the primary form means with only `args`
/// written: a bare list of literals is read as the same list in brackets
/// behind `args =`.
pub proof fn lemma_bare_list_is_args(items: Seq<Seq<char>>)
    ensures
        spec_parse_list(render_items(items)) == Ok::<ConfigurationView, ParseErrorView>(
            ConfigurationView::empty().with(ArgName::Args, ValueView::List(items)),
        ),
        spec_parse_list(render_items(items)) == spec_parse_clauses(
            render(seq![ClauseView { name: ArgName::Args, value: ValueView::List(items) }]),
        ),
{
    let tokens = render_items(items);
    assert(tokens.subrange(0, tokens.len() as int) =~= tokens);
    lemma_bare_items_are_read(tokens, 0, Seq::empty(), items);
    assert(Seq::<Seq<char>>::empty() + items =~= items);
    let clauses = seq![ClauseView { name: ArgName::Args, value: ValueView::List(items) }];
    assert(well_formed(clauses));
    lemma_written_is_read(clauses);
    let written = ConfigurationView::empty().with(ArgName::Args, ValueView::List(items));
    assert(build(ConfigurationView::empty(), clauses) == build(written, clauses.drop_first()));
    assert(clauses.drop_first().len() == 0);
    assert(build(written, clauses.drop_first()) == written);
}

} // verus!
