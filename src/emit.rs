//! Field-kind helpers shared by every record: one spec function describing
//! the tokens of a field kind, and one executable function appending them.
use vstd::prelude::*;

verus! {

/// Tokens of a boolean flag: the bare flag when set, nothing otherwise.
pub open spec fn switch(on: bool, flag: Seq<char>) -> Seq<Seq<char>> {
    if on {
        seq![flag]
    } else {
        seq![]
    }
}

/// Appends a single token.
pub fn push_token(args: &mut Vec<String>, token: &str)
    ensures
        final(args).deep_view() == old(args).deep_view().push(token@),
{
    let s = String::from_str(token);
    args.push(s);
    assert(args.deep_view() =~= old(args).deep_view().push(token@));
}

/// Appends a copy of `value` as a single token.
pub fn push_string(args: &mut Vec<String>, value: &String)
    ensures
        final(args).deep_view() == old(args).deep_view().push(value@),
{
    let s = value.clone();
    args.push(s);
    assert(args.deep_view() =~= old(args).deep_view().push(value@));
}

/// Appends `flag` when `on` holds.
pub fn push_switch(args: &mut Vec<String>, on: bool, flag: &str)
    ensures
        final(args).deep_view() == old(args).deep_view() + switch(on, flag@),
{
    if on {
        push_token(args, flag);
    }
    assert(args.deep_view() =~= old(args).deep_view() + switch(on, flag@));
}

/// Tokens of an optional value: the flag and then the value, when present.
pub open spec fn valued(value: Option<Seq<char>>, flag: Seq<char>) -> Seq<Seq<char>> {
    match value {
        Some(v) => seq![flag, v],
        None => seq![],
    }
}

/// Tokens of a repeatable list: the flag and one value, once per value, in order.
pub open spec fn repeated(values: Seq<Seq<char>>, flag: Seq<char>) -> Seq<Seq<char>>
    decreases values.len(),
{
    if values.len() == 0 {
        seq![]
    } else {
        repeated(values.drop_last(), flag) + seq![flag, values.last()]
    }
}

/// Appends `flag` and then `value`, when a value is present.
pub fn push_valued(args: &mut Vec<String>, value: &Option<String>, flag: &str)
    ensures
        final(args).deep_view() == old(args).deep_view() + valued(value.deep_view(), flag@),
{
    match value {
        Some(v) => {
            push_token(args, flag);
            push_string(args, v);
        },
        None => {},
    }
    assert(args.deep_view() =~= old(args).deep_view() + valued(value.deep_view(), flag@));
}

/// Appends `flag` and one value for each of `values`, in order.
pub fn push_repeated(args: &mut Vec<String>, values: &Vec<String>, flag: &str)
    ensures
        final(args).deep_view() == old(args).deep_view() + repeated(values.deep_view(), flag@),
{
    let ghost start = args.deep_view();
    let mut i: usize = 0;
    while i < values.len()
        invariant
            i <= values.len(),
            args.deep_view() == start + repeated(values.deep_view().take(i as int), flag@),
        decreases values.len() - i,
    {
        let ghost before = args.deep_view();
        push_token(args, flag);
        push_string(args, &values[i]);
        proof {
            let done = values.deep_view().take(i + 1);
            assert(done.drop_last() =~= values.deep_view().take(i as int));
            assert(args.deep_view() =~= before + seq![flag@, done.last()]);
        }
        i = i + 1;
    }
    assert(values.deep_view().take(i as int) =~= values.deep_view());
}

/// Tokens of a verbosity count: one token, `-` followed by `n` times `v`; none at zero.
pub open spec fn verbosity(n: nat) -> Seq<Seq<char>> {
    if n == 0 {
        seq![]
    } else {
        seq![seq!['-'] + Seq::new(n, |i: int| 'v')]
    }
}

/// Appends the verbosity token for count `n`.
pub fn push_verbosity(args: &mut Vec<String>, n: u8)
    ensures
        final(args).deep_view() == old(args).deep_view() + verbosity(n as nat),
{
    if n > 0 {
        let mut token = String::from_str("-");
        proof {
            reveal_strlit("-");
        }
        let mut i: u8 = 0;
        while i < n
            invariant
                i <= n,
                token@ =~= seq!['-'] + Seq::new(i as nat, |j: int| 'v'),
            decreases n - i,
        {
            token.append("v");
            proof {
                reveal_strlit("v");
            }
            i = i + 1;
            assert(token@ =~= seq!['-'] + Seq::new(i as nat, |j: int| 'v'));
        }
        args.push(token);
    }
    assert(args.deep_view() =~= old(args).deep_view() + verbosity(n as nat));
}

/// The decimal digit for `d`.
pub open spec fn digit(d: nat) -> char {
    if d == 0 {
        '0'
    } else if d == 1 {
        '1'
    } else if d == 2 {
        '2'
    } else if d == 3 {
        '3'
    } else if d == 4 {
        '4'
    } else if d == 5 {
        '5'
    } else if d == 6 {
        '6'
    } else if d == 7 {
        '7'
    } else if d == 8 {
        '8'
    } else {
        '9'
    }
}

/// The decimal form of `n`, without sign or leading zeros.
pub open spec fn decimal(n: nat) -> Seq<char>
    decreases n,
{
    if n < 10 {
        seq![digit(n)]
    } else {
        decimal(n / 10) + seq![digit(n % 10)]
    }
}

fn digit_text(d: usize) -> (r: &'static str)
    requires
        d < 10,
    ensures
        r@ == seq![digit(d as nat)],
{
    proof {
        reveal_strlit("0");
        reveal_strlit("1");
        reveal_strlit("2");
        reveal_strlit("3");
        reveal_strlit("4");
        reveal_strlit("5");
        reveal_strlit("6");
        reveal_strlit("7");
        reveal_strlit("8");
        reveal_strlit("9");
    }
    if d == 0 {
        "0"
    } else if d == 1 {
        "1"
    } else if d == 2 {
        "2"
    } else if d == 3 {
        "3"
    } else if d == 4 {
        "4"
    } else if d == 5 {
        "5"
    } else if d == 6 {
        "6"
    } else if d == 7 {
        "7"
    } else if d == 8 {
        "8"
    } else {
        "9"
    }
}

/// Renders `n` in decimal.
pub fn decimal_text(n: usize) -> (r: String)
    ensures
        r@ == decimal(n as nat),
    decreases n,
{
    if n < 10 {
        String::from_str(digit_text(n))
    } else {
        let mut r = decimal_text(n / 10);
        r.append(digit_text(n % 10));
        r
    }
}

/// The decimal form of an optional number.
pub open spec fn numeral(value: Option<usize>) -> Option<Seq<char>> {
    match value {
        Some(n) => Some(decimal(n as nat)),
        None => None,
    }
}

/// Appends `flag` and the decimal form of `value`, when a value is present.
pub fn push_number(args: &mut Vec<String>, value: Option<usize>, flag: &str)
    ensures
        final(args).deep_view() == old(args).deep_view() + valued(numeral(value), flag@),
{
    match value {
        Some(n) => {
            push_token(args, flag);
            let text = decimal_text(n);
            push_string(args, &text);
        },
        None => {},
    }
}

/// The canonical target triple of `t`: the part before the first `.`, or all
/// of `t` when it holds no `.` (so `x86_64-unknown-linux-gnu.2.17` names the
/// triple `x86_64-unknown-linux-gnu`).
pub open spec fn triple_of(t: Seq<char>) -> Seq<char>
    decreases t.len(),
{
    if t.len() == 0 {
        t
    } else if t[0] == '.' {
        seq![]
    } else {
        seq![t[0]] + triple_of(t.drop_first())
    }
}

/// The canonical triples of `ts`, in order.
pub open spec fn triples(ts: Seq<Seq<char>>) -> Seq<Seq<char>> {
    ts.map_values(|t: Seq<char>| triple_of(t))
}

/// A prefix of `t` free of `.` and ending where `t` ends or at a `.` is the
/// canonical triple of `t`.
pub proof fn lemma_triple_prefix(t: Seq<char>, i: int)
    requires
        0 <= i <= t.len(),
        forall|j: int| 0 <= j < i ==> t[j] != '.',
        i == t.len() || t[i] == '.',
    ensures
        triple_of(t) == t.take(i),
    decreases i,
{
    if i == 0 {
        assert(t.take(0) =~= seq![]);
        if t.len() == 0 {
            assert(t =~= seq![]);
        }
    } else {
        let rest = t.drop_first();
        assert forall|j: int| 0 <= j < i - 1 implies rest[j] != '.' by {
            assert(rest[j] == t[j + 1]);
        }
        lemma_triple_prefix(rest, i - 1);
        assert(seq![t[0]] + rest.take(i - 1) =~= t.take(i));
    }
}

/// Canonical triple of a target value.
pub fn canonical_triple(target: &String) -> (r: String)
    ensures
        r@ == triple_of(target@),
{
    let s = target.as_str();
    let n = s.unicode_len();
    let mut i: usize = 0;
    while i < n && s.get_char(i) != '.'
        invariant
            i <= n,
            n == s@.len(),
            s@ == target@,
            forall|j: int| 0 <= j < i ==> s@[j] != '.',
        decreases n - i,
    {
        i = i + 1;
    }
    proof {
        lemma_triple_prefix(s@, i as int);
    }
    String::from_str(s.substring_char(0, i))
}

/// Appends `flag` and the canonical triple of each of `targets`, in order.
pub fn push_targets(args: &mut Vec<String>, targets: &Vec<String>, flag: &str)
    ensures
        final(args).deep_view() == old(args).deep_view() + repeated(
            triples(targets.deep_view()),
            flag@,
        ),
{
    let ghost start = args.deep_view();
    let ghost all = triples(targets.deep_view());
    let mut i: usize = 0;
    while i < targets.len()
        invariant
            i <= targets.len(),
            all == triples(targets.deep_view()),
            args.deep_view() == start + repeated(all.take(i as int), flag@),
        decreases targets.len() - i,
    {
        let ghost before = args.deep_view();
        push_token(args, flag);
        let triple = canonical_triple(&targets[i]);
        push_string(args, &triple);
        proof {
            let done = all.take(i + 1);
            assert(done.drop_last() =~= all.take(i as int));
            assert(done.last() == triple@);
            assert(args.deep_view() =~= before + seq![flag@, done.last()]);
        }
        i = i + 1;
    }
    assert(all.take(i as int) =~= all);
}

/// `values` joined into one text, with `sep` between neighbours.
pub open spec fn joined(values: Seq<Seq<char>>, sep: Seq<char>) -> Seq<char>
    decreases values.len(),
{
    if values.len() == 0 {
        seq![]
    } else if values.len() == 1 {
        values[0]
    } else {
        joined(values.drop_last(), sep) + sep + values.last()
    }
}

/// Joins `values` with `sep` between neighbours.
pub fn join_values(values: &Vec<String>, sep: &str) -> (r: String)
    ensures
        r@ == joined(values.deep_view(), sep@),
{
    let mut r = String::new();
    let mut i: usize = 0;
    while i < values.len()
        invariant
            i <= values.len(),
            r@ == joined(values.deep_view().take(i as int), sep@),
        decreases values.len() - i,
    {
        let ghost done = values.deep_view().take(i + 1);
        if i > 0 {
            r.append(sep);
        }
        r.append(values[i].as_str());
        proof {
            assert(done.drop_last() =~= values.deep_view().take(i as int));
            if i == 0 {
                assert(r@ =~= done[0]);
            }
        }
        i = i + 1;
    }
    assert(values.deep_view().take(i as int) =~= values.deep_view());
    r
}

/// Tokens of a delimiter-joined list: the flag and then every value joined
/// by `,` as one token; nothing when the list is empty.
pub open spec fn joined_flag(values: Seq<Seq<char>>, flag: Seq<char>) -> Seq<Seq<char>> {
    if values.len() == 0 {
        seq![]
    } else {
        seq![flag, joined(values, ","@)]
    }
}

/// Appends `flag` and `values` joined by `,`, unless `values` is empty.
pub fn push_joined(args: &mut Vec<String>, values: &Vec<String>, flag: &str)
    ensures
        final(args).deep_view() == old(args).deep_view() + joined_flag(values.deep_view(), flag@),
{
    if values.len() > 0 {
        push_token(args, flag);
        let text = join_values(values, ",");
        push_string(args, &text);
    }
    assert(args.deep_view() =~= old(args).deep_view() + joined_flag(values.deep_view(), flag@));
}

/// Tokens of the timings option: nothing when absent, the bare flag when it
/// holds no format, else one token `--timings=` and the formats joined by `,`.
pub open spec fn timings(value: Option<Seq<Seq<char>>>) -> Seq<Seq<char>> {
    match value {
        None => seq![],
        Some(fmts) => if fmts.len() == 0 {
            seq!["--timings"@]
        } else {
            seq!["--timings="@ + joined(fmts, ","@)]
        },
    }
}

/// Appends the timings tokens of `value`.
pub fn push_timings(args: &mut Vec<String>, value: &Option<Vec<String>>)
    ensures
        final(args).deep_view() == old(args).deep_view() + timings(value.deep_view()),
{
    match value {
        None => {},
        Some(fmts) => {
            if fmts.len() == 0 {
                push_token(args, "--timings");
            } else {
                let mut token = String::from_str("--timings=");
                let list = join_values(fmts, ",");
                token.append(list.as_str());
                args.push(token);
            }
        },
    }
    assert(args.deep_view() =~= old(args).deep_view() + timings(value.deep_view()));
}

/// Tokens of a trailing passthrough segment: `--` and then the values, or
/// nothing when there are none.
pub open spec fn passthrough(values: Seq<Seq<char>>) -> Seq<Seq<char>> {
    if values.len() == 0 {
        seq![]
    } else {
        seq!["--"@] + values
    }
}

/// Appends each of `values` as a token of its own, in order.
pub fn push_all(args: &mut Vec<String>, values: &Vec<String>)
    ensures
        final(args).deep_view() == old(args).deep_view() + values.deep_view(),
{
    let ghost start = args.deep_view();
    let mut i: usize = 0;
    while i < values.len()
        invariant
            i <= values.len(),
            args.deep_view() == start + values.deep_view().take(i as int),
        decreases values.len() - i,
    {
        push_string(args, &values[i]);
        assert(values.deep_view().take(i + 1) =~= values.deep_view().take(i as int).push(
            values.deep_view()[i as int],
        ));
        i = i + 1;
    }
    assert(values.deep_view().take(i as int) =~= values.deep_view());
}

/// Appends the passthrough segment of `values`.
pub fn push_passthrough(args: &mut Vec<String>, values: &Vec<String>)
    ensures
        final(args).deep_view() == old(args).deep_view() + passthrough(values.deep_view()),
{
    if values.len() > 0 {
        push_token(args, "--");
        push_all(args, values);
    }
    assert(args.deep_view() =~= old(args).deep_view() + passthrough(values.deep_view()));
}

/// A boolean flag adds its token exactly when it is set, and then exactly once.
pub proof fn lemma_switch_once(on: bool, flag: Seq<char>)
    ensures
        switch(on, flag).len() == (if on { 1nat } else { 0nat }),
        switch(on, flag).to_multiset().count(flag) == (if on { 1nat } else { 0nat }),
{
    broadcast use vstd::seq_lib::group_to_multiset_ensures;

    let empty: Seq<Seq<char>> = seq![];
    assert(empty.to_multiset().count(flag) == 0);
    if on {
        assert(switch(on, flag) =~= empty.push(flag));
    } else {
        assert(switch(on, flag) =~= empty);
    }
}

/// An optional value adds one flag/value pair, whose value token is the value
/// itself, when present, and no token when absent.
pub proof fn lemma_valued_pair(value: Option<Seq<char>>, flag: Seq<char>)
    ensures
        value is Some ==> valued(value, flag).len() == 2 && valued(value, flag)[0] == flag
            && valued(value, flag)[1] == value->0,
        value is None ==> valued(value, flag).len() == 0,
{
}

/// A repeatable list adds one flag/value pair per value, with the values in
/// their input order.
pub proof fn lemma_repeated_pairs(values: Seq<Seq<char>>, flag: Seq<char>)
    ensures
        repeated(values, flag).len() == 2 * values.len(),
        forall|i: int|
            0 <= i < values.len() ==> #[trigger] repeated(values, flag)[2 * i] == flag
                && repeated(values, flag)[2 * i + 1] == values[i],
    decreases values.len(),
{
    if values.len() > 0 {
        let init = values.drop_last();
        lemma_repeated_pairs(init, flag);
        let r = repeated(values, flag);
        assert(r == repeated(init, flag) + seq![flag, values.last()]);
        assert forall|i: int| 0 <= i < values.len() implies #[trigger] r[2 * i] == flag && r[2
            * i + 1] == values[i] by {
            if i < init.len() {
                assert(repeated(init, flag)[2 * i] == flag);
                assert(values[i] == init[i]);
            } else {
                let k = repeated(init, flag).len() as int;
                assert(2 * i == k);
                assert(r[k] == flag);
                assert(r[k + 1] == values.last());
            }
        }
        assert(forall|i: int|
            0 <= i < values.len() ==> #[trigger] repeated(values, flag)[2 * i] == flag
                && repeated(values, flag)[2 * i + 1] == values[i]);
    }
}

/// A verbosity count `n` adds one token, `-` and then `n` times `v`, when
/// `n` is positive, and no token at zero.
pub proof fn lemma_verbosity_token(n: nat)
    ensures
        n == 0 ==> verbosity(n).len() == 0,
        n > 0 ==> verbosity(n).len() == 1 && verbosity(n)[0].len() == n + 1 && verbosity(n)[0][0]
            == '-' && forall|i: int| 1 <= i <= n ==> #[trigger] verbosity(n)[0][i] == 'v',
{
}

/// A target value without `.` passes through unchanged.
pub proof fn lemma_triple_without_dot(t: Seq<char>)
    requires
        !t.contains('.'),
    ensures
        triple_of(t) == t,
{
    assert forall|j: int| 0 <= j < t.len() implies t[j] != '.' by {
        if t[j] == '.' {
            assert(t.contains('.'));
        }
    }
    lemma_triple_prefix(t, t.len() as int);
    assert(t.take(t.len() as int) =~= t);
}

/// A target value holding `.` is cut to what stands before its first `.`.
pub proof fn lemma_triple_at_first_dot(t: Seq<char>, i: int)
    requires
        0 <= i < t.len(),
        t[i] == '.',
        forall|j: int| 0 <= j < i ==> t[j] != '.',
    ensures
        triple_of(t) == t.take(i),
{
    lemma_triple_prefix(t, i);
}

/// Tokens followed by a tail split back into the two at the tokens' length.
pub proof fn lemma_split_at_end(head: Seq<Seq<char>>, tail: Seq<Seq<char>>)
    ensures
        (head + tail).take(head.len() as int) == head,
        (head + tail).skip(head.len() as int) == tail,
{
    assert((head + tail).take(head.len() as int) =~= head);
    assert((head + tail).skip(head.len() as int) =~= tail);
}

/// A non-empty trailing segment is the last block of tokens: one `--`, then
/// the values in order; an empty one adds no token, so no `--` either.
pub proof fn lemma_passthrough_last(head: Seq<Seq<char>>, values: Seq<Seq<char>>)
    ensures
        values.len() > 0 ==> (head + passthrough(values)).len() == head.len() + 1 + values.len()
            && (head + passthrough(values)).take(head.len() as int) == head && (head
            + passthrough(values)).skip(head.len() as int) == seq!["--"@] + values,
        values.len() == 0 ==> head + passthrough(values) == head,
{
    let all = head + passthrough(values);
    if values.len() > 0 {
        assert(all.take(head.len() as int) =~= head);
        assert(all.skip(head.len() as int) =~= seq!["--"@] + values);
    } else {
        assert(all =~= head);
    }
}

} // verus!
