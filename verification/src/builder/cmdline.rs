//! Building argument vectors, with their meaning as sequences of character sequences.

use vstd::prelude::*;

use crate::text::{has_part, has_part_concat, has_part_whole};

verus! {

/// `[flag, v]` for each value `v`, in order.
pub open spec fn pairs(flag: Seq<char>, values: Seq<Seq<char>>) -> Seq<Seq<char>>
    decreases values.len(),
{
    if values.len() == 0 {
        seq![]
    } else {
        pairs(flag, values.drop_last()) + seq![flag, values.last()]
    }
}

/// `[flag, prefix + v]` for each value `v`, in order.
pub open spec fn prefixed_pairs(flag: Seq<char>, prefix: Seq<char>, values: Seq<Seq<char>>) -> Seq<Seq<char>>
    decreases values.len(),
{
    if values.len() == 0 {
        seq![]
    } else {
        prefixed_pairs(flag, prefix, values.drop_last()) + seq![flag, prefix + values.last()]
    }
}

/// `prefix + v` for each value `v`, all run together.
pub open spec fn joined_with_prefix(prefix: Seq<char>, values: Seq<Seq<char>>) -> Seq<char>
    decreases values.len(),
{
    if values.len() == 0 {
        seq![]
    } else {
        joined_with_prefix(prefix, values.drop_last()) + prefix + values.last()
    }
}

/// `[flag, v]` when the value is present, nothing otherwise.
pub open spec fn optional_pair(flag: Seq<char>, value: Option<Seq<char>>) -> Seq<Seq<char>> {
    match value {
        Some(v) => seq![flag, v],
        None => seq![],
    }
}

/// `a` followed by `b`.
pub fn concat(a: &str, b: &str) -> (r: String)
    ensures
        r@ == a@ + b@,
{
    let mut s = String::from_str(a);
    s.append(b);
    s
}

/// `a`, `b` and `c` run together.
pub fn concat3(a: &str, b: &str, c: &str) -> (r: String)
    ensures
        r@ == a@ + b@ + c@,
{
    let mut s = String::from_str(a);
    s.append(b);
    s.append(c);
    s
}

/// Appends one argument.
pub fn push_arg(v: &mut Vec<String>, s: String)
    ensures
        final(v).deep_view() == old(v).deep_view().push(s@),
{
    let ghost before = v.deep_view();
    v.push(s);
    assert(v.deep_view() =~= before.push(s@));
}

/// Appends a copy of a literal argument.
pub fn push_str(v: &mut Vec<String>, s: &str)
    ensures
        final(v).deep_view() == old(v).deep_view().push(s@),
{
    push_arg(v, String::from_str(s));
}

/// Appends a copy of each of `values`, in order.
pub fn extend_args(v: &mut Vec<String>, values: &Vec<String>)
    ensures
        final(v).deep_view() == old(v).deep_view() + values.deep_view(),
{
    let ghost start = v.deep_view();
    let mut i: usize = 0;
    while i < values.len()
        invariant
            i <= values.len(),
            v.deep_view() == start + values.deep_view().take(i as int),
        decreases values.len() - i,
    {
        assert(values.deep_view().take(i + 1) =~= values.deep_view().take(i as int).push(values[i as int]@));
        push_arg(v, values[i].clone());
        i = i + 1;
    }
    assert(values.deep_view().take(values.len() as int) =~= values.deep_view());
}

/// Appends `flag, value` for each value, in order.
pub fn push_pairs(v: &mut Vec<String>, flag: &str, values: &Vec<String>)
    ensures
        final(v).deep_view() == old(v).deep_view() + pairs(flag@, values.deep_view()),
{
    let ghost start = v.deep_view();
    let mut i: usize = 0;
    while i < values.len()
        invariant
            i <= values.len(),
            v.deep_view() == start + pairs(flag@, values.deep_view().take(i as int)),
        decreases values.len() - i,
    {
        let ghost before = v.deep_view();
        assert(values.deep_view().take(i + 1).drop_last() =~= values.deep_view().take(i as int));
        push_str(v, flag);
        push_arg(v, values[i].clone());
        assert(v.deep_view() =~= start + pairs(flag@, values.deep_view().take(i + 1)));
        i = i + 1;
    }
    assert(values.deep_view().take(values.len() as int) =~= values.deep_view());
}

/// Appends `flag, prefix + value` for each value, in order.
pub fn push_prefixed_pairs(v: &mut Vec<String>, flag: &str, prefix: &str, values: &Vec<String>)
    ensures
        final(v).deep_view() == old(v).deep_view() + prefixed_pairs(flag@, prefix@, values.deep_view()),
{
    let ghost start = v.deep_view();
    let mut i: usize = 0;
    while i < values.len()
        invariant
            i <= values.len(),
            v.deep_view() == start + prefixed_pairs(flag@, prefix@, values.deep_view().take(i as int)),
        decreases values.len() - i,
    {
        assert(values.deep_view().take(i + 1).drop_last() =~= values.deep_view().take(i as int));
        push_str(v, flag);
        push_arg(v, concat(prefix, values[i].as_str()));
        assert(v.deep_view() =~= start + prefixed_pairs(flag@, prefix@, values.deep_view().take(i + 1)));
        i = i + 1;
    }
    assert(values.deep_view().take(values.len() as int) =~= values.deep_view());
}

/// `prefix + value` for each value, all run together.
pub fn join_with_prefix(prefix: &str, values: &Vec<String>) -> (r: String)
    ensures
        r@ == joined_with_prefix(prefix@, values.deep_view()),
{
    let mut s = String::new();
    let mut i: usize = 0;
    while i < values.len()
        invariant
            i <= values.len(),
            s@ == joined_with_prefix(prefix@, values.deep_view().take(i as int)),
        decreases values.len() - i,
    {
        assert(values.deep_view().take(i + 1).drop_last() =~= values.deep_view().take(i as int));
        s.append(prefix);
        s.append(values[i].as_str());
        i = i + 1;
    }
    assert(values.deep_view().take(values.len() as int) =~= values.deep_view());
    s
}

} // verus!

verus! {

/// Appends two arguments.
pub fn push_two(v: &mut Vec<String>, a: &str, b: &str)
    ensures
        final(v).deep_view() == old(v).deep_view() + seq![a@, b@],
{
    let ghost start = v.deep_view();
    push_str(v, a);
    push_str(v, b);
    assert(v.deep_view() =~= start + seq![a@, b@]);
}

/// Appends `flag, value` when the value is present.
pub fn push_optional_pair(v: &mut Vec<String>, flag: &str, value: &Option<String>)
    ensures
        final(v).deep_view() == old(v).deep_view() + optional_pair(flag@, value.deep_view()),
{
    let ghost start = v.deep_view();
    match value {
        Some(x) => push_two(v, flag, x.as_str()),
        None => {
            assert(v.deep_view() =~= start + optional_pair(flag@, value.deep_view()));
        },
    }
}

/// Appends the arguments of `tail`, in order.
pub fn append_args(v: &mut Vec<String>, tail: Vec<String>)
    ensures
        final(v).deep_view() == old(v).deep_view() + tail.deep_view(),
{
    let ghost start = v.deep_view();
    let ghost t = tail.deep_view();
    let mut tail = tail;
    v.append(&mut tail);
    assert(v.deep_view() =~= start + t);
}

/// Some argument contains `part`.
pub open spec fn arg_has(args: Seq<Seq<char>>, part: Seq<char>) -> bool {
    exists|j: int| 0 <= j < args.len() && has_part(#[trigger] args[j], part)
}

/// What some argument of one of two argument lists contains, some argument of the two
/// lists run together contains.
pub broadcast proof fn arg_has_concat(a: Seq<Seq<char>>, b: Seq<Seq<char>>, part: Seq<char>)
    ensures
        (arg_has(a, part) || arg_has(b, part)) ==> #[trigger] arg_has(a + b, part),
{
    if arg_has(a, part) {
        let j = choose|j: int| 0 <= j < a.len() && has_part(#[trigger] a[j], part);
        assert((a + b)[j] == a[j]);
    } else if arg_has(b, part) {
        let j = choose|j: int| 0 <= j < b.len() && has_part(#[trigger] b[j], part);
        assert((a + b)[a.len() + j] == b[j]);
    }
}

/// An argument that contains `part` makes the list contain it.
pub proof fn arg_has_at(args: Seq<Seq<char>>, j: int, part: Seq<char>)
    requires
        0 <= j < args.len(),
        has_part(args[j], part),
    ensures
        arg_has(args, part),
{
}

/// Every value passed as `flag, value` is an argument.
pub proof fn pairs_pass_values(flag: Seq<char>, values: Seq<Seq<char>>, k: int)
    requires
        0 <= k < values.len(),
    ensures
        arg_has(pairs(flag, values), values[k]),
    decreases values.len(),
{
    broadcast use arg_has_concat;
    has_part_whole(values[k]);
    if k == values.len() - 1 {
        arg_has_at(seq![flag, values.last()], 1, values[k]);
    } else {
        pairs_pass_values(flag, values.drop_last(), k);
        assert(values.drop_last()[k] == values[k]);
    }
}

/// Every value passed as `flag, prefix + value` is contained in an argument.
pub proof fn prefixed_pairs_pass_values(flag: Seq<char>, prefix: Seq<char>, values: Seq<Seq<char>>, k: int)
    requires
        0 <= k < values.len(),
    ensures
        arg_has(prefixed_pairs(flag, prefix, values), values[k]),
        arg_has(prefixed_pairs(flag, prefix, values), prefix + values[k]),
    decreases values.len(),
{
    broadcast use arg_has_concat, has_part_concat;
    has_part_whole(values[k]);
    has_part_whole(prefix + values[k]);
    if k == values.len() - 1 {
        arg_has_at(seq![flag, prefix + values.last()], 1, values[k]);
        arg_has_at(seq![flag, prefix + values.last()], 1, prefix + values[k]);
    } else {
        prefixed_pairs_pass_values(flag, prefix, values.drop_last(), k);
        assert(values.drop_last()[k] == values[k]);
    }
}

proof fn pairs_len(flag: Seq<char>, values: Seq<Seq<char>>)
    ensures
        pairs(flag, values).len() == 2 * values.len(),
    decreases values.len(),
{
    if values.len() > 0 {
        pairs_len(flag, values.drop_last());
    }
}

proof fn pairs_at(flag: Seq<char>, values: Seq<Seq<char>>, k: int)
    requires
        0 <= k < values.len(),
    ensures
        pairs(flag, values)[2 * k] == flag,
        pairs(flag, values)[2 * k + 1] == values[k],
    decreases values.len(),
{
    let head = pairs(flag, values.drop_last());
    pairs_len(flag, values.drop_last());
    if k < values.len() - 1 {
        pairs_at(flag, values.drop_last(), k);
    }
}

/// Every value is passed as its own flag pair: `[flag, v0, flag, v1, ...]`, twice as long
/// as the values, with the flag at each even place and the `k`-th value right after it.
pub proof fn pairs_are_flag_value_pairs(flag: Seq<char>, values: Seq<Seq<char>>)
    ensures
        pairs(flag, values).len() == 2 * values.len(),
        forall|j: int| 0 <= j < 2 * values.len() ==> #[trigger] pairs(flag, values)[j] == (if j % 2 == 0 {
            flag
        } else {
            values[j / 2]
        }),
{
    pairs_len(flag, values);
    assert forall|j: int| 0 <= j < 2 * values.len() implies #[trigger] pairs(flag, values)[j] == (if j
        % 2 == 0 {
        flag
    } else {
        values[j / 2]
    }) by {
        let k = j / 2;
        assert(j == 2 * k || j == 2 * k + 1);
        pairs_at(flag, values, k);
    }
}

proof fn prefixed_pairs_len(flag: Seq<char>, prefix: Seq<char>, values: Seq<Seq<char>>)
    ensures
        prefixed_pairs(flag, prefix, values).len() == 2 * values.len(),
    decreases values.len(),
{
    if values.len() > 0 {
        prefixed_pairs_len(flag, prefix, values.drop_last());
    }
}

proof fn prefixed_pairs_at(flag: Seq<char>, prefix: Seq<char>, values: Seq<Seq<char>>, k: int)
    requires
        0 <= k < values.len(),
    ensures
        prefixed_pairs(flag, prefix, values)[2 * k] == flag,
        prefixed_pairs(flag, prefix, values)[2 * k + 1] == prefix + values[k],
    decreases values.len(),
{
    prefixed_pairs_len(flag, prefix, values.drop_last());
    if k < values.len() - 1 {
        prefixed_pairs_at(flag, prefix, values.drop_last(), k);
    }
}

/// Every value is passed with its prefix as its own flag pair:
/// `[flag, prefix + v0, flag, prefix + v1, ...]`.
pub proof fn prefixed_pairs_are_flag_value_pairs(flag: Seq<char>, prefix: Seq<char>, values: Seq<Seq<char>>)
    ensures
        prefixed_pairs(flag, prefix, values).len() == 2 * values.len(),
        forall|j: int| 0 <= j < 2 * values.len() ==> #[trigger] prefixed_pairs(flag, prefix, values)[j] == (
        if j % 2 == 0 {
            flag
        } else {
            prefix + values[j / 2]
        }),
{
    prefixed_pairs_len(flag, prefix, values);
    assert forall|j: int| 0 <= j < 2 * values.len() implies #[trigger] prefixed_pairs(flag, prefix, values)[j]
        == (if j % 2 == 0 {
        flag
    } else {
        prefix + values[j / 2]
    }) by {
        let k = j / 2;
        assert(j == 2 * k || j == 2 * k + 1);
        prefixed_pairs_at(flag, prefix, values, k);
    }
}

} // verus!
