//! Placeholders and the argument lists of the modern and the legacy format.

use vstd::prelude::*;
use vstd::string::*;

use crate::launch::rules::{allowed, rules_allow, Platform};
use crate::launch::version::{Arg, ArgValue, Rule};
use crate::text::{join, joined, replace, replaced, texts};

verus! {

broadcast use vstd::seq::group_seq_axioms;

/// The names and values of a list of variables.
pub open spec fn var_texts(vars: Seq<(String, String)>) -> Seq<(Seq<char>, Seq<char>)> {
    Seq::new(vars.len(), |i: int| (vars[i].0@, vars[i].1@))
}

/// `${name}`.
pub open spec fn placeholder(name: Seq<char>) -> Seq<char> {
    seq!['$', '{'] + name + seq!['}']
}

/// The template with the placeholder of each variable replaced by its value, one variable after
/// the other in the order of the list.
pub open spec fn substituted(template: Seq<char>, vars: Seq<(Seq<char>, Seq<char>)>) -> Seq<char>
    decreases vars.len(),
{
    if vars.len() == 0 {
        template
    } else {
        replaced(
            substituted(template, vars.drop_last()),
            placeholder(vars.last().0),
            vars.last().1,
        )
    }
}

/// `substituted` for each template of a list.
pub open spec fn all_substituted(
    templates: Seq<Seq<char>>,
    vars: Seq<(Seq<char>, Seq<char>)>,
) -> Seq<Seq<char>> {
    Seq::new(templates.len(), |i: int| substituted(templates[i], vars))
}

/// The templates for which an argument stands on `platform`.
pub open spec fn arg_templates(arg: Arg, platform: Platform) -> Seq<Seq<char>> {
    match arg {
        Arg::Plain(s) => seq![s@],
        Arg::Conditional { rules, value } => if allowed(rules@, platform) {
            match value {
                ArgValue::One(s) => seq![s@],
                ArgValue::Many(v) => texts(v@),
            }
        } else {
            Seq::empty()
        },
    }
}

/// The templates for which a list of arguments stands on `platform`, in order.
pub open spec fn args_templates(args: Seq<Arg>, platform: Platform) -> Seq<Seq<char>>
    decreases args.len(),
{
    if args.len() == 0 {
        Seq::empty()
    } else {
        args_templates(args.drop_last(), platform) + arg_templates(args.last(), platform)
    }
}

/// The entries of a class path, with colons between them.
pub fn classpath_string(cp: &Vec<String>) -> (r: String)
    ensures
        r@ == joined(texts(cp@), ":"@),
{
    join(cp, ":")
}

/// Replaces the placeholder of each variable by its value, one variable after the other.
pub fn substitute(template: &str, vars: &Vec<(String, String)>) -> (r: String)
    ensures
        r@ == substituted(template@, var_texts(vars@)),
{
    let mut s = template.to_string();
    let mut i: usize = 0;
    let ghost all = var_texts(vars@);
    while i < vars.len()
        invariant
            i <= vars@.len(),
            all == var_texts(vars@),
            s@ == substituted(template@, all.take(i as int)),
        decreases vars@.len() - i,
    {
        let mut pat = "".to_string();
        pat.push('$');
        pat.push('{');
        pat.append(vars[i].0.as_str());
        pat.push('}');
        proof {
            reveal_strlit("");
            assert(pat@ =~= placeholder(vars@[i as int].0@));
            assert(all.take(i + 1).drop_last() =~= all.take(i as int));
            assert(all.take(i + 1).last() == all[i as int]);
        }
        s = replace(s.as_str(), pat.as_str(), vars[i].1.as_str());
        i += 1;
    }
    assert(all.take(i as int) =~= all);
    s
}

/// Appends what an argument stands for.
pub fn push_arg(arg: &Arg, vars: &Vec<(String, String)>, platform: &Platform, out: &mut Vec<String>)
    ensures
        texts(final(out)@) == texts(old(out)@) + all_substituted(
            arg_templates(*arg, *platform),
            var_texts(vars@),
        ),
{
    let ghost before = texts(out@);
    let ghost v = var_texts(vars@);
    match arg {
        Arg::Plain(s) => {
            out.push(substitute(s.as_str(), vars));
            assert(texts(out@) =~= before + all_substituted(seq![s@], v));
        },
        Arg::Conditional { rules, value } => {
            if rules_allow(rules, platform) {
                match value {
                    ArgValue::One(s) => {
                        out.push(substitute(s.as_str(), vars));
                        assert(texts(out@) =~= before + all_substituted(seq![s@], v));
                    },
                    ArgValue::Many(list) => {
                        push_all(list, vars, out);
                    },
                }
            } else {
                assert(before + all_substituted(Seq::empty(), v) =~= before);
            }
        },
    }
}

/// Appends each template of a list, substituted.
pub fn push_all(list: &Vec<String>, vars: &Vec<(String, String)>, out: &mut Vec<String>)
    ensures
        texts(final(out)@) == texts(old(out)@) + all_substituted(texts(list@), var_texts(vars@)),
{
    let ghost before = texts(out@);
    let ghost v = var_texts(vars@);
    let mut i: usize = 0;
    assert(before + all_substituted(texts(list@).take(0), v) =~= before);
    while i < list.len()
        invariant
            i <= list@.len(),
            v == var_texts(vars@),
            texts(out@) == before + all_substituted(texts(list@).take(i as int), v),
        decreases list@.len() - i,
    {
        let ghost so_far = texts(out@);
        out.push(substitute(list[i].as_str(), vars));
        proof {
            assert(texts(out@) =~= so_far.push(substituted(list@[i as int]@, v)));
            assert(all_substituted(texts(list@).take(i + 1), v) =~= all_substituted(
                texts(list@).take(i as int),
                v,
            ).push(substituted(list@[i as int]@, v)));
            assert(texts(out@) =~= before + all_substituted(texts(list@).take(i + 1), v));
        }
        i += 1;
    }
    assert(texts(list@).take(i as int) =~= texts(list@));
}

/// Appends what each argument of a list stands for.
pub fn push_args(
    args: &Vec<Arg>,
    vars: &Vec<(String, String)>,
    platform: &Platform,
    out: &mut Vec<String>,
)
    ensures
        texts(final(out)@) == texts(old(out)@) + all_substituted(
            args_templates(args@, *platform),
            var_texts(vars@),
        ),
{
    let ghost before = texts(out@);
    let ghost v = var_texts(vars@);
    let mut i: usize = 0;
    assert(args@.take(0) =~= Seq::empty());
    assert(before + all_substituted(args_templates(args@.take(0), *platform), v) =~= before);
    while i < args.len()
        invariant
            i <= args@.len(),
            v == var_texts(vars@),
            texts(out@) == before + all_substituted(
                args_templates(args@.take(i as int), *platform),
                v,
            ),
        decreases args@.len() - i,
    {
        let ghost so_far = texts(out@);
        push_arg(&args[i], vars, platform, out);
        proof {
            let a = args_templates(args@.take(i as int), *platform);
            let b = arg_templates(args@[i as int], *platform);
            assert(args@.take(i + 1).drop_last() =~= args@.take(i as int));
            assert(args@.take(i + 1).last() == args@[i as int]);
            assert(all_substituted(a + b, v) =~= all_substituted(a, v) + all_substituted(b, v));
            assert(texts(out@) =~= before + all_substituted(a + b, v));
        }
        i += 1;
    }
    assert(args@.take(i as int) =~= args@);
}

// ---- what substitution promises --------------------------------------------

/// A piece of a template: text that stands for itself, or the name of a variable.
pub enum Piece {
    Text(Seq<char>),
    Hole(Seq<char>),
}

/// The template that the pieces make up.
pub open spec fn rendered(pieces: Seq<Piece>) -> Seq<char>
    decreases pieces.len(),
{
    if pieces.len() == 0 {
        Seq::empty()
    } else {
        piece_text(pieces[0]) + rendered(pieces.skip(1))
    }
}

/// A piece as it stands in a template.
pub open spec fn piece_text(piece: Piece) -> Seq<char> {
    match piece {
        Piece::Text(t) => t,
        Piece::Hole(name) => placeholder(name),
    }
}

/// Text in which no placeholder begins, whatever follows it: each dollar sign is followed by a
/// character of the text other than an opening brace.
pub open spec fn inert(t: Seq<char>) -> bool {
    forall|i: int| 0 <= i < t.len() && #[trigger] t[i] == '$' ==> i + 1 < t.len() && t[i + 1] != '{'
}

/// A name that can stand between `${` and `}`: no closing brace, and no `${` inside.
pub open spec fn is_name(name: Seq<char>) -> bool {
    &&& !name.contains('}')
    &&& forall|i: int|
        0 <= i < name.len() - 1 && #[trigger] name[i] == '$' ==> name[i + 1] != '{'
}

/// Whether a piece is inert text or a hole with a proper name.
pub open spec fn is_piece(piece: Piece) -> bool {
    match piece {
        Piece::Text(t) => inert(t),
        Piece::Hole(name) => is_name(name),
    }
}

/// The value of the first variable called `name`.
pub open spec fn value_of(vars: Seq<(Seq<char>, Seq<char>)>, name: Seq<char>) -> Option<Seq<char>>
    decreases vars.len(),
{
    if vars.len() == 0 {
        None
    } else {
        match value_of(vars.drop_last(), name) {
            Some(v) => Some(v),
            None => if vars.last().0 == name {
                Some(vars.last().1)
            } else {
                None
            },
        }
    }
}

/// The pieces with each hole that has a variable filled by its value.
pub open spec fn filled(pieces: Seq<Piece>, vars: Seq<(Seq<char>, Seq<char>)>) -> Seq<Piece> {
    Seq::new(
        pieces.len(),
        |i: int|
            match pieces[i] {
                Piece::Text(t) => Piece::Text(t),
                Piece::Hole(name) => match value_of(vars, name) {
                    Some(v) => Piece::Text(v),
                    None => Piece::Hole(name),
                },
            },
    )
}

/// Variables with proper names and inert values.
pub open spec fn are_vars(vars: Seq<(Seq<char>, Seq<char>)>) -> bool {
    forall|i: int|
        0 <= i < vars.len() ==> is_name((#[trigger] vars[i]).0) && inert(vars[i].1)
}

/// Text in which `pat` matches nowhere before `rest` is kept as it stands.
proof fn lemma_replaced_skips(t: Seq<char>, rest: Seq<char>, pat: Seq<char>, to: Seq<char>)
    requires
        pat.len() > 0,
        forall|i: int| 0 <= i < t.len() ==> !pat.is_prefix_of(#[trigger] (t + rest).skip(i)),
    ensures
        replaced(t + rest, pat, to) == t + replaced(rest, pat, to),
    decreases t.len(),
{
    let s = t + rest;
    if t.len() == 0 {
        assert(s =~= rest);
        assert(t + replaced(rest, pat, to) =~= replaced(rest, pat, to));
    } else if s.len() < pat.len() {
    } else {
        assert(s.skip(0) =~= s);
        assert(!pat.is_prefix_of(s.skip(0)));
        let t1 = t.skip(1);
        assert(s.skip(1) =~= t1 + rest);
        assert forall|i: int| 0 <= i < t1.len() implies !pat.is_prefix_of(
            #[trigger] (t1 + rest).skip(i),
        ) by {
            assert((t1 + rest).skip(i) =~= s.skip(i + 1));
        }
        lemma_replaced_skips(t1, rest, pat, to);
        assert(seq![s[0]] + (t1 + replaced(rest, pat, to)) =~= t + replaced(rest, pat, to));
    }
}

proof fn lemma_replaced_piece(piece: Piece, rest: Seq<char>, name: Seq<char>, value: Seq<char>)
    requires
        is_piece(piece),
        is_name(name),
    ensures
        replaced(piece_text(piece) + rest, placeholder(name), value) == (if piece == Piece::Hole(
            name,
        ) {
            value
        } else {
            piece_text(piece)
        }) + replaced(rest, placeholder(name), value),
{
    let pat = placeholder(name);
    let t = piece_text(piece);
    let s = t + rest;
    assert(pat[0] == '$' && pat[1] == '{' && pat.len() == name.len() + 3);
    if piece == Piece::Hole(name) {
        assert(s.skip(pat.len() as int) =~= rest);
        assert(s.subrange(0, pat.len() as int) =~= pat);
    } else {
        assert forall|i: int| 0 <= i < t.len() implies !pat.is_prefix_of(#[trigger] s.skip(i)) by {
            if pat.is_prefix_of(s.skip(i)) {
                let u = s.skip(i);
                assert(forall|j: int| 0 <= j < pat.len() ==> pat[j] == u.subrange(0, pat.len() as int)[j]);
                assert(u[0] == pat[0] && u[1] == pat[1]);
                assert(s[i] == '$' && s[i + 1] == '{');
                match piece {
                    Piece::Text(text) => {
                        assert(text[i] == '$');
                    },
                    Piece::Hole(other) => {
                        if i == 0 {
                            lemma_names_differ(name, other, rest);
                        } else if i == 1 {
                            assert(s[1] == '{');
                        } else if i < t.len() - 1 {
                            assert(other[i - 2] == '$');
                            if i < t.len() - 2 {
                                assert(other[i - 1] == '{');
                            } else {
                                assert(s[i + 1] == '}');
                            }
                        } else {
                            assert(s[i] == '}');
                        }
                    },
                }
            }
        }
        lemma_replaced_skips(t, rest, pat, value);
    }
}

proof fn lemma_names_differ(name: Seq<char>, other: Seq<char>, rest: Seq<char>)
    requires
        is_name(name),
        is_name(other),
        name != other,
    ensures
        !placeholder(name).is_prefix_of(placeholder(other) + rest),
{
    let pat = placeholder(name);
    let s = placeholder(other) + rest;
    if pat.is_prefix_of(s) {
        assert(forall|j: int| 0 <= j < pat.len() ==> pat[j] == s.subrange(0, pat.len() as int)[j]);
        if name.len() == other.len() {
            assert forall|j: int| 0 <= j < name.len() implies name[j] == other[j] by {
                assert(pat[j + 2] == s[j + 2]);
            }
            assert(name =~= other);
        } else if name.len() < other.len() {
            assert(pat[name.len() + 2int] == s[name.len() + 2int]);
            assert(other[name.len() as int] == '}');
            assert(other.contains('}'));
        } else {
            assert(pat[other.len() + 2int] == s[other.len() + 2int]);
            assert(name[other.len() as int] == '}');
            assert(name.contains('}'));
        }
    }
}

/// The pieces with the holes called `name` filled by `value`.
spec fn filled_one(pieces: Seq<Piece>, name: Seq<char>, value: Seq<char>) -> Seq<Piece> {
    Seq::new(
        pieces.len(),
        |i: int|
            if pieces[i] == Piece::Hole(name) {
                Piece::Text(value)
            } else {
                pieces[i]
            },
    )
}

proof fn lemma_replaced_pieces(pieces: Seq<Piece>, name: Seq<char>, value: Seq<char>)
    requires
        forall|i: int| 0 <= i < pieces.len() ==> is_piece(#[trigger] pieces[i]),
        is_name(name),
    ensures
        replaced(rendered(pieces), placeholder(name), value) == rendered(
            filled_one(pieces, name, value),
        ),
    decreases pieces.len(),
{
    if pieces.len() == 0 {
    } else {
        let rest = pieces.skip(1);
        assert forall|i: int| 0 <= i < rest.len() implies is_piece(#[trigger] rest[i]) by {
            assert(rest[i] == pieces[i + 1]);
        }
        lemma_replaced_pieces(rest, name, value);
        lemma_replaced_piece(pieces[0], rendered(rest), name, value);
        assert(filled_one(pieces, name, value).skip(1) =~= filled_one(rest, name, value));
    }
}

/// Substitution fills each hole by the value of its variable, leaves holes without a variable
/// and all other text alone, and fills nothing that a value brought in.
pub proof fn law_substitution_fills_the_holes(
    pieces: Seq<Piece>,
    vars: Seq<(Seq<char>, Seq<char>)>,
)
    requires
        forall|i: int| 0 <= i < pieces.len() ==> is_piece(#[trigger] pieces[i]),
        are_vars(vars),
    ensures
        substituted(rendered(pieces), vars) == rendered(filled(pieces, vars)),
    decreases vars.len(),
{
    if vars.len() == 0 {
        assert(filled(pieces, vars) =~= pieces);
    } else {
        let front = vars.drop_last();
        assert forall|i: int| 0 <= i < front.len() implies is_name((#[trigger] front[i]).0) && inert(
            front[i].1,
        ) by {
            assert(front[i] == vars[i]);
        }
        law_substitution_fills_the_holes(pieces, front);
        let half = filled(pieces, front);
        let name = vars.last().0;
        let value = vars.last().1;
        assert(is_name(vars[vars.len() - 1].0));
        assert forall|i: int| 0 <= i < half.len() implies is_piece(#[trigger] half[i]) by {
            assert(is_piece(pieces[i]));
            match pieces[i] {
                Piece::Text(t) => {},
                Piece::Hole(n) => {
                    lemma_value_is_inert(front, n);
                },
            }
        }
        lemma_replaced_pieces(half, name, value);
        assert(filled_one(half, name, value) =~= filled(pieces, vars));
    }
}

proof fn lemma_value_is_inert(vars: Seq<(Seq<char>, Seq<char>)>, name: Seq<char>)
    requires
        are_vars(vars),
    ensures
        value_of(vars, name) matches Some(v) ==> inert(v),
    decreases vars.len(),
{
    if vars.len() > 0 {
        let front = vars.drop_last();
        assert forall|i: int| 0 <= i < front.len() implies is_name((#[trigger] front[i]).0) && inert(
            front[i].1,
        ) by {
            assert(front[i] == vars[i]);
        }
        lemma_value_is_inert(front, name);
        assert(inert(vars[vars.len() - 1].1));
    }
}

/// The value of a variable is that of some pair of the list; no value means no such pair.
pub proof fn lemma_value_of(vars: Seq<(Seq<char>, Seq<char>)>, name: Seq<char>)
    ensures
        match value_of(vars, name) {
            Some(v) => exists|i: int| 0 <= i < vars.len() && #[trigger] vars[i] == (name, v),
            None => forall|i: int| 0 <= i < vars.len() ==> (#[trigger] vars[i]).0 != name,
        },
    decreases vars.len(),
{
    if vars.len() > 0 {
        let front = vars.drop_last();
        lemma_value_of(front, name);
        match value_of(front, name) {
            Some(v) => {
                let i = choose|i: int| 0 <= i < front.len() && #[trigger] front[i] == (name, v);
                assert(vars[i] == (name, v));
            },
            None => {
                assert forall|i: int| 0 <= i < vars.len() - 1 implies (#[trigger] vars[i]).0 != name by {
                    assert(front[i].0 != name);
                }
                if vars.last().0 == name {
                    assert(vars[vars.len() - 1] == (name, vars.last().1));
                }
            },
        }
    }
}

/// Whether no two variables share a name.
pub open spec fn names_differ(vars: Seq<(Seq<char>, Seq<char>)>) -> bool {
    forall|i: int, j: int|
        0 <= i < vars.len() && 0 <= j < vars.len() && i != j ==> (#[trigger] vars[i]).0 != (
        #[trigger] vars[j]).0
}

/// The order in which a table of variables is walked does not matter: two lists that hold the
/// same variables, each name once, give the same text.
pub proof fn law_walk_order_does_not_matter(
    pieces: Seq<Piece>,
    a: Seq<(Seq<char>, Seq<char>)>,
    b: Seq<(Seq<char>, Seq<char>)>,
)
    requires
        forall|i: int| 0 <= i < pieces.len() ==> is_piece(#[trigger] pieces[i]),
        are_vars(a),
        names_differ(a),
        names_differ(b),
        forall|x: (Seq<char>, Seq<char>)| a.contains(x) <==> b.contains(x),
    ensures
        substituted(rendered(pieces), a) == substituted(rendered(pieces), b),
{
    assert forall|i: int| 0 <= i < b.len() implies is_name((#[trigger] b[i]).0) && inert(b[i].1) by {
        assert(b.contains(b[i]));
        assert(a.contains(b[i]));
        let j = choose|j: int| 0 <= j < a.len() && a[j] == b[i];
        assert(is_name(a[j].0));
    }
    law_substitution_fills_the_holes(pieces, a);
    law_substitution_fills_the_holes(pieces, b);
    assert forall|name: Seq<char>| value_of(a, name) == value_of(b, name) by {
        lemma_value_of(a, name);
        lemma_value_of(b, name);
        match value_of(a, name) {
            Some(v) => {
                let i = choose|i: int| 0 <= i < a.len() && #[trigger] a[i] == (name, v);
                assert(a.contains(a[i]));
                assert(b.contains((name, v)));
                let j = choose|j: int| 0 <= j < b.len() && b[j] == (name, v);
                match value_of(b, name) {
                    Some(w) => {
                        let k = choose|k: int| 0 <= k < b.len() && #[trigger] b[k] == (name, w);
                        assert(b[j].0 == b[k].0);
                    },
                    None => {
                        assert(b[j].0 != name);
                    },
                }
            },
            None => {
                match value_of(b, name) {
                    Some(w) => {
                        let k = choose|k: int| 0 <= k < b.len() && #[trigger] b[k] == (name, w);
                        assert(b.contains(b[k]));
                        assert(a.contains((name, w)));
                        let i = choose|i: int| 0 <= i < a.len() && a[i] == (name, w);
                        assert(a[i].0 != name);
                    },
                    None => {},
                }
            },
        }
    }
    assert(filled(pieces, a) =~= filled(pieces, b));
}

/// A template that is one placeholder becomes the value of its variable.
pub proof fn law_placeholder_becomes_its_value(
    name: Seq<char>,
    vars: Seq<(Seq<char>, Seq<char>)>,
)
    requires
        is_name(name),
        are_vars(vars),
    ensures
        substituted(placeholder(name), vars) == (match value_of(vars, name) {
            Some(v) => v,
            None => placeholder(name),
        }),
{
    let pieces = seq![Piece::Hole(name)];
    law_substitution_fills_the_holes(pieces, vars);
    lemma_rendered_one(pieces);
    lemma_rendered_one(filled(pieces, vars));
}

proof fn lemma_rendered_one(pieces: Seq<Piece>)
    requires
        pieces.len() == 1,
    ensures
        rendered(pieces) == piece_text(pieces[0]),
{
    assert(pieces.skip(1) =~= Seq::empty());
    assert(rendered(pieces.skip(1)) =~= Seq::empty());
    assert(piece_text(pieces[0]) + Seq::<char>::empty() =~= piece_text(pieces[0]));
}

/// Text in which no placeholder begins is kept as it stands.
pub proof fn law_plain_text_is_kept(t: Seq<char>, vars: Seq<(Seq<char>, Seq<char>)>)
    requires
        inert(t),
        are_vars(vars),
    ensures
        substituted(t, vars) == t,
{
    let pieces = seq![Piece::Text(t)];
    law_substitution_fills_the_holes(pieces, vars);
    lemma_rendered_one(pieces);
    lemma_rendered_one(filled(pieces, vars));
}

/// A plain argument stands for itself, whatever the system.
pub proof fn law_plain_argument_stands_for_itself(s: String, platform: Platform)
    ensures
        arg_templates(Arg::Plain(s), platform).len() == 1,
        arg_templates(Arg::Plain(s), platform)[0] == s@,
{
}

/// Where its rules allow it, a conditional argument stands for every one of its values, in order:
/// for what the same values stand for as plain arguments.
pub proof fn law_allowed_values_are_as_plain_arguments(
    rules: Vec<Rule>,
    one: String,
    many: Vec<String>,
    plain: Seq<Arg>,
    platform: Platform,
)
    requires
        allowed(rules@, platform),
        plain.len() == many@.len(),
        forall|i: int| 0 <= i < plain.len() ==> #[trigger] plain[i] == Arg::Plain(many@[i]),
    ensures
        arg_templates(Arg::Conditional { rules, value: ArgValue::One(one) }, platform)
            == arg_templates(Arg::Plain(one), platform),
        arg_templates(Arg::Conditional { rules, value: ArgValue::Many(many) }, platform)
            == args_templates(plain, platform),
{
    lemma_plain_templates(plain, platform);
    assert(args_templates(plain, platform) =~= texts(many@));
}

proof fn lemma_plain_templates(plain: Seq<Arg>, platform: Platform)
    requires
        forall|i: int| 0 <= i < plain.len() ==> #[trigger] plain[i] is Plain,
    ensures
        args_templates(plain, platform).len() == plain.len(),
        forall|i: int|
            0 <= i < plain.len() ==> #[trigger] args_templates(plain, platform)[i]
                == plain[i]->Plain_0@,
    decreases plain.len(),
{
    if plain.len() > 0 {
        let front = plain.drop_last();
        assert forall|i: int| 0 <= i < front.len() implies #[trigger] front[i] is Plain by {
            assert(front[i] == plain[i]);
        }
        lemma_plain_templates(front, platform);
        assert(plain[plain.len() - 1] is Plain);
    }
}

/// Where its rules refuse it, a conditional argument stands for nothing.
pub proof fn law_refused_argument_is_left_out(
    args: Seq<Arg>,
    rules: Vec<Rule>,
    value: ArgValue,
    platform: Platform,
)
    requires
        !allowed(rules@, platform),
    ensures
        args_templates(args.push(Arg::Conditional { rules, value }), platform) == args_templates(
            args,
            platform,
        ),
{
    assert(args.push(Arg::Conditional { rules, value }).drop_last() =~= args);
    assert(args_templates(args, platform) + Seq::<Seq<char>>::empty() =~= args_templates(
        args,
        platform,
    ));
}

/// Arguments keep their order: those of two lists, one after the other, are those of the first
/// followed by those of the second, before and after substitution.
pub proof fn law_arguments_keep_their_order(
    first: Seq<Arg>,
    second: Seq<Arg>,
    platform: Platform,
    vars: Seq<(Seq<char>, Seq<char>)>,
)
    ensures
        args_templates(first + second, platform) == args_templates(first, platform)
            + args_templates(second, platform),
        all_substituted(args_templates(first + second, platform), vars) == all_substituted(
            args_templates(first, platform),
            vars,
        ) + all_substituted(args_templates(second, platform), vars),
    decreases second.len(),
{
    let a = args_templates(first, platform);
    if second.len() == 0 {
        assert(first + second =~= first);
        assert(a + Seq::<Seq<char>>::empty() =~= a);
    } else {
        let front = second.drop_last();
        law_arguments_keep_their_order(first, front, platform, vars);
        assert((first + second).drop_last() =~= first + front);
        assert((first + second).last() == second.last());
        assert(a + args_templates(front, platform) + arg_templates(second.last(), platform) =~= a + (
        args_templates(front, platform) + arg_templates(second.last(), platform)));
    }
    assert(all_substituted(args_templates(first + second, platform), vars) =~= all_substituted(
        a,
        vars,
    ) + all_substituted(args_templates(second, platform), vars));
}

/// Each argument is substituted on its own: as many come out as go in, each at its place.
pub proof fn law_each_argument_is_substituted_alone(
    templates: Seq<Seq<char>>,
    vars: Seq<(Seq<char>, Seq<char>)>,
    i: int,
)
    requires
        0 <= i < templates.len(),
    ensures
        all_substituted(templates, vars).len() == templates.len(),
        all_substituted(templates, vars)[i] == substituted(templates[i], vars),
{
}

/// A placeholder is written as a dollar sign and the name in braces.
pub proof fn law_placeholder_is_the_name_in_braces(name: Seq<char>)
    ensures
        placeholder(name) == "${"@ + name + "}"@,
{
    reveal_strlit("${");
    reveal_strlit("}");
    assert("${"@ =~= seq!['$', '{']);
    assert("}"@ =~= seq!['}']);
}

/// A variable that is added last puts its value in place of its placeholder in what the others
/// have made; the text on both sides of it is what it was.
pub proof fn law_variable_is_put_in_place(
    before: Seq<char>,
    after: Seq<char>,
    name: Seq<char>,
    value: Seq<char>,
)
    requires
        inert(before),
        inert(after),
        is_name(name),
    ensures
        substituted(before + placeholder(name) + after, seq![(name, value)]) == before + value
            + after,
{
    let vars = seq![(name, value)];
    let pieces = seq![Piece::Text(before), Piece::Hole(name), Piece::Text(after)];
    assert forall|i: int| 0 <= i < pieces.len() implies is_piece(#[trigger] pieces[i]) by {}
    reveal_with_fuel(rendered, 4);
    assert(pieces.skip(1).skip(1).skip(1) =~= Seq::empty());
    assert(rendered(pieces) =~= before + placeholder(name) + after);
    lemma_replaced_pieces(pieces, name, value);
    let full = filled_one(pieces, name, value);
    assert(full[0] == Piece::Text(before) && full[1] == Piece::Text(value) && full[2]
        == Piece::Text(after));
    assert(full.skip(1).skip(1).skip(1) =~= Seq::empty());
    assert(rendered(full) =~= before + value + after);
    assert(vars.drop_last() =~= Seq::empty());
    assert(substituted(rendered(pieces), vars.drop_last()) == rendered(pieces));
}

/// Variables go one after the other: one that is added last is put into what those before it have
/// made.
pub proof fn law_variables_go_one_after_the_other(
    template: Seq<char>,
    vars: Seq<(Seq<char>, Seq<char>)>,
    name: Seq<char>,
    value: Seq<char>,
)
    ensures
        substituted(template, Seq::empty()) == template,
        substituted(template, vars.push((name, value))) == replaced(
            substituted(template, vars),
            placeholder(name),
            value,
        ),
{
    assert(vars.push((name, value)).drop_last() =~= vars);
}

/// The variables of a list are its pairs, in order.
pub proof fn law_variables_are_the_pairs_of_the_list(vars: Seq<(String, String)>, i: int)
    requires
        0 <= i < vars.len(),
    ensures
        var_texts(vars).len() == vars.len(),
        var_texts(vars)[i] == (vars[i].0@, vars[i].1@),
{
}

} // verus!
