use vstd::prelude::*;
use crate::error::{FieldMessages, field_messages_view, distinct_keys};

verus! {

/// The validation failures of one field: the messages of the field's own
/// checks, the failures inside a nested structure, or the failures of the
/// items of a list, each under its index.
pub enum ValidationErrorsKind {
    Struct(Box<ValidationErrors>),
    List(Vec<(usize, ValidationErrors)>),
    Field(Vec<String>),
}

/// The validation failures of a structure, field by field. Each field
/// message is the text that the failed check displays.
pub struct ValidationErrors {
    pub errors: Vec<(String, ValidationErrorsKind)>,
}

/// The character of a decimal digit.
pub open spec fn digit_char(d: nat) -> char
    recommends
        d < 10,
{
    if d == 0 { '0' } else if d == 1 { '1' } else if d == 2 { '2' } else if d == 3 { '3' }
    else if d == 4 { '4' } else if d == 5 { '5' } else if d == 6 { '6' } else if d == 7 { '7' }
    else if d == 8 { '8' } else { '9' }
}

/// The decimal text of a natural number, without leading zeros.
pub open spec fn decimal(n: nat) -> Seq<char>
    decreases n,
{
    if n < 10 {
        seq![digit_char(n)]
    } else {
        decimal(n / 10).push(digit_char(n % 10))
    }
}

/// The texts of `parts` with `sep` between each two.
pub open spec fn join(parts: Seq<Seq<char>>, sep: Seq<char>) -> Seq<char>
    decreases parts.len(),
{
    if parts.len() == 0 {
        Seq::empty()
    } else if parts.len() == 1 {
        parts[0]
    } else {
        join(parts.drop_last(), sep) + sep + parts.last()
    }
}

pub open spec fn strings_view(v: Vec<String>) -> Seq<Seq<char>> {
    v@.map_values(|s: String| s@)
}

/// The flat `(key, message)` entries of one field's failures under `key`:
/// a field's own messages joined by commas, a nested structure's fields under
/// `key.field`, a list item's fields under `key[index].field`.
pub open spec fn kind_entries(key: Seq<char>, kind: ValidationErrorsKind) -> Seq<(Seq<char>, Seq<char>)>
    decreases kind, 0int,
{
    match kind {
        ValidationErrorsKind::Field(msgs) => seq![(key, join(strings_view(msgs), ","@))],
        ValidationErrorsKind::Struct(inner) => errors_entries(key + "."@, *inner, 0),
        ValidationErrorsKind::List(items) => list_entries(key, items, 0),
    }
}

/// The entries of the fields of `errs` from the `i`-th on, each field's
/// name put after `prefix`.
pub open spec fn errors_entries(prefix: Seq<char>, errs: ValidationErrors, i: int) -> Seq<(Seq<char>, Seq<char>)>
    decreases errs, errs.errors@.len() - i,
{
    if 0 <= i < errs.errors@.len() {
        kind_entries(prefix + errs.errors@[i].0@, errs.errors@[i].1) + errors_entries(prefix, errs, i + 1)
    } else {
        Seq::empty()
    }
}

/// The entries of the list items from the `j`-th on, under
/// `key[index].`.
pub open spec fn list_entries(key: Seq<char>, items: Vec<(usize, ValidationErrors)>, j: int) -> Seq<(Seq<char>, Seq<char>)>
    decreases items, items@.len() - j,
{
    if 0 <= j < items@.len() {
        errors_entries(key + "["@ + decimal(items@[j].0 as nat) + "]."@, items@[j].1, 0)
            + list_entries(key, items, j + 1)
    } else {
        Seq::empty()
    }
}

/// The field map of a validation failure: none when nothing failed, else
/// every failed check under the path of its field.
pub open spec fn spec_field_messages(errs: ValidationErrors) -> Option<Seq<(Seq<char>, Seq<char>)>> {
    if errs.errors@.len() == 0 {
        None
    } else {
        Some(errors_entries(Seq::empty(), errs, 0))
    }
}

fn digit_string(d: usize) -> (r: String)
    requires
        d < 10,
    ensures
        r@ == seq![digit_char(d as nat)],
{
    let s = match d {
        0 => "0",
        1 => "1",
        2 => "2",
        3 => "3",
        4 => "4",
        5 => "5",
        6 => "6",
        7 => "7",
        8 => "8",
        _ => "9",
    };
    proof {
        reveal_strlit("0");
        reveal_strlit("1");
        reveal_strlit("2");
        reveal_strlit("3");
        reveal_strlit("4");
        reveal_strlit("5");
        reveal_strlit("6");
        reveal_strlit("7");
        reveal_strlit("8");
        reveal_strlit("9");
    }
    String::from_str(s)
}

/// The decimal text of `n`.
pub fn decimal_string(n: usize) -> (r: String)
    ensures
        r@ == decimal(n as nat),
    decreases n,
{
    if n < 10 {
        digit_string(n)
    } else {
        let head = decimal_string(n / 10);
        let tail = digit_string(n % 10);
        let r = head.concat(tail.as_str());
        proof {
            assert(r@ =~= decimal((n / 10) as nat).push(digit_char((n % 10) as nat)));
        }
        r
    }
}

/// The texts of `parts` joined by `sep`.
pub fn join_strings(parts: &Vec<String>, sep: &str) -> (r: String)
    ensures
        r@ == join(strings_view(*parts), sep@),
{
    let mut out = String::new();
    let ghost all = strings_view(*parts);
    let mut i: usize = 0;
    while i < parts.len()
        invariant
            i <= parts.len(),
            all == strings_view(*parts),
            out@ == join(all.subrange(0, i as int), sep@),
        decreases parts.len() - i,
    {
        proof {
            assert(all.subrange(0, i + 1).drop_last() =~= all.subrange(0, i as int));
        }
        if i == 0 {
            out.append(parts[i].as_str());
            proof {
                assert(out@ =~= join(all.subrange(0, 1), sep@));
            }
        } else {
            out.append(sep);
            out.append(parts[i].as_str());
        }
        i = i + 1;
    }
    proof {
        assert(all.subrange(0, parts@.len() as int) =~= all);
    }
    out
}

fn build_errors(prefix: &String, errs: &ValidationErrors) -> (r: FieldMessages)
    ensures
        field_messages_view(r) == errors_entries(prefix@, *errs, 0),
    decreases *errs, 0int,
{
    let mut out: FieldMessages = Vec::new();
    let mut i: usize = 0;
    while i < errs.errors.len()
        invariant
            i <= errs.errors@.len(),
            field_messages_view(out) + errors_entries(prefix@, *errs, i as int)
                =~= errors_entries(prefix@, *errs, 0),
        decreases errs.errors@.len() - i,
    {
        let key = prefix.clone().concat(errs.errors[i].0.as_str());
        proof {
            assert(decreases_to!(*errs => errs.errors));
            assert(decreases_to!(errs.errors => errs.errors@));
            assert(decreases_to!(errs.errors@ => errs.errors@[i as int]));
            assert(decreases_to!(errs.errors@[i as int] => errs.errors@[i as int].1));
        }
        let mut sub = build_kind(key, &errs.errors[i].1);
        let ghost before = field_messages_view(out);
        let ghost added = field_messages_view(sub);
        out.append(&mut sub);
        proof {
            assert(field_messages_view(out) =~= before + added);
        }
        i = i + 1;
    }
    out
}

/// The flat `(key, message)` entries of one field's failures under `key`.
pub fn build_kind(key: String, kind: &ValidationErrorsKind) -> (r: FieldMessages)
    ensures
        field_messages_view(r) == kind_entries(key@, *kind),
        kind_wf(*kind) ==> distinct_keys(field_messages_view(r)),
    decreases *kind, 1int,
{
    proof {
        if kind_wf(*kind) {
            lemma_kind_keys_distinct(key@, *kind);
        }
    }
    match kind {
        ValidationErrorsKind::Field(msgs) => {
            let mut out: FieldMessages = Vec::new();
            out.push((key, join_strings(msgs, ",")));
            proof {
                assert(field_messages_view(out) =~= kind_entries(key@, *kind));
            }
            out
        },
        ValidationErrorsKind::Struct(inner) => {
            let prefix = key.concat(".");
            proof {
                assert(decreases_to!(*kind => **inner));
            }
            build_errors(&prefix, inner)
        },
        ValidationErrorsKind::List(items) => {
            let mut out: FieldMessages = Vec::new();
            let mut j: usize = 0;
            while j < items.len()
                invariant
                    j <= items@.len(),
                    *kind == ValidationErrorsKind::List(*items),
                    field_messages_view(out) + list_entries(key@, *items, j as int)
                        =~= list_entries(key@, *items, 0),
                decreases items@.len() - j,
            {
                let prefix = key.clone().concat("[").concat(decimal_string(items[j].0).as_str()).concat("].");
                proof {
                    assert(decreases_to!(*kind => kind->List_0));
                    assert(kind->List_0 == *items);
                    assert(decreases_to!(*items => items@));
                    assert(decreases_to!(items@ => items@[j as int]));
                    assert(decreases_to!(items@[j as int] => items@[j as int].1));
                }
                let mut sub = build_errors(&prefix, &items[j].1);
                let ghost before = field_messages_view(out);
                let ghost added = field_messages_view(sub);
                out.append(&mut sub);
                proof {
                    assert(field_messages_view(out) =~= before + added);
                }
                j = j + 1;
            }
            out
        },
    }
}

/// The field map of a validation failure: `None` when no field failed,
/// else each failed field under its path with its messages joined by commas.
pub fn validation_errors_to_hashmap(errors: &ValidationErrors) -> (r: Option<FieldMessages>)
    ensures
        match r {
            Some(m) => spec_field_messages(*errors) == Some(field_messages_view(m)),
            None => spec_field_messages(*errors) is None,
        },
        well_formed(*errors) ==> (r matches Some(m) ==> distinct_keys(field_messages_view(m))),
{
    proof {
        if well_formed(*errors) {
            lemma_errors_keys_distinct(Seq::empty(), *errors, 0);
        }
    }
    if errors.errors.len() == 0 {
        return None;
    }
    let empty = String::new();
    let out = build_errors(&empty, errors);
    Some(out)
}

/// A character that opens a nested part of a flattened key.
pub open spec fn is_separator(c: char) -> bool {
    c == '.' || c == '['
}

/// A field name as a structure's fields are named: no separator in it.
pub open spec fn plain_name(n: Seq<char>) -> bool {
    forall|k: int| 0 <= k < n.len() ==> !is_separator(#[trigger] n[k])
}

/// The field names of a structure are plain and none occurs twice.
pub open spec fn names_ok(errs: ValidationErrors) -> bool {
    &&& forall|j: int| 0 <= j < errs.errors@.len() ==> plain_name(#[trigger] errs.errors@[j].0@)
    &&& forall|j: int, k: int| 0 <= j < k < errs.errors@.len() ==> errs.errors@[j].0@ != errs.errors@[k].0@
}

/// A failure of one field is well formed: nested structures and list
/// items are.
pub open spec fn kind_wf(kind: ValidationErrorsKind) -> bool
    decreases kind, 0int,
{
    match kind {
        ValidationErrorsKind::Field(_) => true,
        ValidationErrorsKind::Struct(inner) => errors_wf(*inner, 0),
        ValidationErrorsKind::List(items) => list_wf(items, 0),
    }
}

/// The failures of a structure are well formed from the `i`-th field on:
/// the names are plain and distinct, and each field's failure is well
/// formed.
pub open spec fn errors_wf(errs: ValidationErrors, i: int) -> bool
    decreases errs, errs.errors@.len() - i,
{
    if 0 <= i < errs.errors@.len() {
        &&& names_ok(errs)
        &&& kind_wf(errs.errors@[i].1)
        &&& errors_wf(errs, i + 1)
    } else {
        names_ok(errs)
    }
}

/// The list items from the `j`-th on are well formed: their indices
/// strictly increase and each item's failures are well formed.
pub open spec fn list_wf(items: Vec<(usize, ValidationErrors)>, j: int) -> bool
    decreases items, items@.len() - j,
{
    if 0 <= j < items@.len() {
        &&& forall|k: int| j < k < items@.len() ==> items@[j].0 < #[trigger] items@[k].0
        &&& errors_wf(items@[j].1, 0)
        &&& list_wf(items, j + 1)
    } else {
        true
    }
}

/// Validation failures as a validator reports them: field names plain and
/// unique per structure, list indices in increasing order.
pub open spec fn well_formed(errs: ValidationErrors) -> bool {
    errors_wf(errs, 0)
}


pub open spec fn starts_with(s: Seq<char>, p: Seq<char>) -> bool {
    p.len() <= s.len() && forall|k: int| 0 <= k < p.len() ==> s[k] == p[k]
}

pub open spec fn bounded(s: Seq<char>, n: nat) -> bool {
    s.len() == n || (n < s.len() && is_separator(s[n as int]))
}

proof fn lemma_starts_concat(s: Seq<char>, p: Seq<char>, q: Seq<char>)
    requires
        starts_with(s, p + q),
    ensures
        starts_with(s, p),
        forall|k: int| 0 <= k < q.len() ==> s[p.len() + k] == #[trigger] q[k],
{
    assert forall|k: int| 0 <= k < p.len() implies s[k] == p[k] by {
        assert((p + q)[k] == p[k]);
    }
    assert forall|k: int| 0 <= k < q.len() implies s[p.len() + k] == #[trigger] q[k] by {
        assert((p + q)[p.len() + k] == q[k]);
    }
}

/// Each entry of a field's failures starts with the field's key, followed
/// by nothing or by a separator.
proof fn lemma_kind_shape(key: Seq<char>, kind: ValidationErrorsKind)
    ensures
        forall|x: int| 0 <= x < kind_entries(key, kind).len() ==>
            starts_with(#[trigger] kind_entries(key, kind)[x].0, key) && bounded(kind_entries(key, kind)[x].0, key.len()),
    decreases kind, 0int,
{
    reveal_strlit(".");
    reveal_strlit("[");
    match kind {
        ValidationErrorsKind::Field(msgs) => {},
        ValidationErrorsKind::Struct(inner) => {
            assert(decreases_to!(kind => *inner));
            let p = key + "."@;
            lemma_errors_shape(p, *inner, 0);
            assert(kind_entries(key, kind) == errors_entries(p, *inner, 0));
            assert forall|x: int| 0 <= x < kind_entries(key, kind).len() implies
                starts_with(#[trigger] kind_entries(key, kind)[x].0, key) && bounded(kind_entries(key, kind)[x].0, key.len()) by {
                let s = errors_entries(p, *inner, 0)[x].0;
                let j = choose|j: int| 0 <= j < inner.errors@.len() && starts_with(s, p + inner.errors@[j].0@)
                    && bounded(s, p.len() + inner.errors@[j].0@.len());
                lemma_starts_concat(s, p, inner.errors@[j].0@);
                lemma_starts_concat(s, key, "."@);
                assert(s[key.len() as int] == "."@[0]);
            }
        },
        ValidationErrorsKind::List(items) => {
            lemma_list_shape(key, items, 0);
            assert(kind_entries(key, kind) == list_entries(key, items, 0));
            assert forall|x: int| 0 <= x < kind_entries(key, kind).len() implies
                starts_with(#[trigger] kind_entries(key, kind)[x].0, key) && bounded(kind_entries(key, kind)[x].0, key.len()) by {
                let s = list_entries(key, items, 0)[x].0;
                let k = choose|k: int| 0 <= k < items@.len() && starts_with(s, key + "["@ + decimal(items@[k].0 as nat) + "]."@);
                let p = key + "["@;
                assert(key + "["@ + decimal(items@[k].0 as nat) + "]."@ == p + (decimal(items@[k].0 as nat) + "]."@));
                lemma_starts_concat(s, p, decimal(items@[k].0 as nat) + "]."@);
                lemma_starts_concat(s, key, "["@);
                assert(s[key.len() as int] == "["@[0]);
            }
        },
    }
}

/// Each entry of a structure's failures from the `i`-th field on starts
/// with the prefix and one of those fields' names, followed by nothing or
/// by a separator.
proof fn lemma_errors_shape(prefix: Seq<char>, errs: ValidationErrors, i: int)
    ensures
        forall|x: int| 0 <= x < errors_entries(prefix, errs, i).len() ==>
            exists|j: int| i <= j < errs.errors@.len()
                && starts_with(#[trigger] errors_entries(prefix, errs, i)[x].0, prefix + errs.errors@[j].0@)
                && bounded(errors_entries(prefix, errs, i)[x].0, prefix.len() + errs.errors@[j].0@.len()),
    decreases errs, errs.errors@.len() - i,
{
    if 0 <= i < errs.errors@.len() {
        let key = prefix + errs.errors@[i].0@;
        let head = kind_entries(key, errs.errors@[i].1);
        let tail = errors_entries(prefix, errs, i + 1);
        lemma_kind_shape(key, errs.errors@[i].1);
        lemma_errors_shape(prefix, errs, i + 1);
        assert(errors_entries(prefix, errs, i) == head + tail);
        assert forall|x: int| 0 <= x < errors_entries(prefix, errs, i).len() implies
            exists|j: int| i <= j < errs.errors@.len()
                && starts_with(#[trigger] errors_entries(prefix, errs, i)[x].0, prefix + errs.errors@[j].0@)
                && bounded(errors_entries(prefix, errs, i)[x].0, prefix.len() + errs.errors@[j].0@.len()) by {
            if x < head.len() {
                assert(errors_entries(prefix, errs, i)[x] == head[x]);
                assert(starts_with(head[x].0, key));
            } else {
                assert(errors_entries(prefix, errs, i)[x] == tail[x - head.len()]);
            }
        }
    }
}

/// Each entry of the list items from the `j`-th on starts with the key,
/// an opening bracket, one of those items' indices and `].`.
proof fn lemma_list_shape(key: Seq<char>, items: Vec<(usize, ValidationErrors)>, j: int)
    ensures
        forall|x: int| 0 <= x < list_entries(key, items, j).len() ==>
            exists|k: int| j <= k < items@.len()
                && starts_with(#[trigger] list_entries(key, items, j)[x].0, key + "["@ + decimal(items@[k].0 as nat) + "]."@),
    decreases items, items@.len() - j,
{
    if 0 <= j < items@.len() {
        let p = key + "["@ + decimal(items@[j].0 as nat) + "]."@;
        let head = errors_entries(p, items@[j].1, 0);
        let tail = list_entries(key, items, j + 1);
        lemma_errors_shape(p, items@[j].1, 0);
        lemma_list_shape(key, items, j + 1);
        assert(list_entries(key, items, j) == head + tail);
        assert forall|x: int| 0 <= x < list_entries(key, items, j).len() implies
            exists|k: int| j <= k < items@.len()
                && starts_with(#[trigger] list_entries(key, items, j)[x].0, key + "["@ + decimal(items@[k].0 as nat) + "]."@) by {
            if x < head.len() {
                assert(list_entries(key, items, j)[x] == head[x]);
                let s = head[x].0;
                let jj = choose|jj: int| 0 <= jj < items@[j].1.errors@.len()
                    && starts_with(s, p + items@[j].1.errors@[jj].0@)
                    && bounded(s, p.len() + items@[j].1.errors@[jj].0@.len());
                lemma_starts_concat(s, p, items@[j].1.errors@[jj].0@);
            } else {
                assert(list_entries(key, items, j)[x] == tail[x - head.len()]);
            }
        }
    }
}

/// Two texts that start with one prefix followed by different parts differ,
/// where the shorter part is not followed by what continues the longer.
proof fn lemma_apart(s: Seq<char>, t: Seq<char>, p: Seq<char>, a: Seq<char>, b: Seq<char>)
    requires
        a != b,
        starts_with(s, p + a),
        starts_with(t, p + b),
        a.len() < b.len() ==> (s.len() == p.len() + a.len() || s[(p.len() + a.len()) as int] != b[a.len() as int]),
        b.len() < a.len() ==> (t.len() == p.len() + b.len() || t[(p.len() + b.len()) as int] != a[b.len() as int]),
    ensures
        s != t,
{
    lemma_starts_concat(s, p, a);
    lemma_starts_concat(t, p, b);
    if s == t {
        if exists|k: int| 0 <= k < a.len() && k < b.len() && a[k] != b[k] {
            let k = choose|k: int| 0 <= k < a.len() && k < b.len() && a[k] != b[k];
            assert(s[p.len() + k] == a[k]);
            assert(t[p.len() + k] == b[k]);
        } else if a.len() < b.len() {
            assert(t[(p.len() + a.len()) as int] == b[a.len() as int]);
        } else if b.len() < a.len() {
            assert(s[(p.len() + b.len()) as int] == a[b.len() as int]);
        } else {
            assert(a =~= b);
        }
    }
}

proof fn lemma_decimal_len(n: nat)
    ensures
        decimal(n).len() >= 1,
        n >= 10 ==> decimal(n).len() >= 2,
    decreases n,
{
    if n >= 10 {
        lemma_decimal_len(n / 10);
    }
}

/// Decimal texts are made of digits.
proof fn lemma_decimal_digits(n: nat)
    ensures
        forall|k: int| 0 <= k < decimal(n).len() ==> #[trigger] decimal(n)[k] != ']',
    decreases n,
{
    if n >= 10 {
        lemma_decimal_digits(n / 10);
        assert forall|k: int| 0 <= k < decimal(n).len() implies #[trigger] decimal(n)[k] != ']' by {
            if k < decimal(n / 10).len() {
                assert(decimal(n)[k] == decimal(n / 10)[k]);
            }
        }
    }
}

/// Different numbers have different decimal texts.
proof fn lemma_decimal_injective(a: nat, b: nat)
    requires
        decimal(a) == decimal(b),
    ensures
        a == b,
    decreases a,
{
    lemma_decimal_len(a);
    lemma_decimal_len(b);
    if a >= 10 && b >= 10 {
        assert(decimal(a) == decimal(a / 10).push(digit_char(a % 10)));
        assert(decimal(b) == decimal(b / 10).push(digit_char(b % 10)));
        assert(decimal(a).last() == digit_char(a % 10));
        assert(decimal(b).last() == digit_char(b % 10));
        assert(decimal(a).last() == decimal(b).last());
        lemma_digit_injective(a % 10, b % 10);
        assert(decimal(a / 10) =~= decimal(a).drop_last());
        assert(decimal(b / 10) =~= decimal(b).drop_last());
        lemma_decimal_injective(a / 10, b / 10);
        assert(a == (a / 10) * 10 + a % 10);
        assert(b == (b / 10) * 10 + b % 10);
    } else if a < 10 && b < 10 {
        assert(decimal(a) == seq![digit_char(a)]);
        assert(decimal(b) == seq![digit_char(b)]);
        assert(decimal(a)[0] == digit_char(a));
        assert(decimal(b)[0] == digit_char(b));
        lemma_digit_injective(a, b);
    }
}

proof fn lemma_digit_injective(x: nat, y: nat)
    requires
        x < 10,
        y < 10,
        digit_char(x) == digit_char(y),
    ensures
        x == y,
{
}

/// Two keys under different list indices differ.
proof fn lemma_indices_apart(s: Seq<char>, t: Seq<char>, key: Seq<char>, a: nat, b: nat)
    requires
        a != b,
        starts_with(s, key + "["@ + decimal(a) + "]."@),
        starts_with(t, key + "["@ + decimal(b) + "]."@),
    ensures
        s != t,
{
    reveal_strlit("].");
    let p = key + "["@;
    let da = decimal(a);
    let db = decimal(b);
    if da == db {
        lemma_decimal_injective(a, b);
    }
    assert(key + "["@ + da + "]."@ == p + (da + "]."@));
    assert(key + "["@ + db + "]."@ == p + (db + "]."@));
    lemma_starts_concat(s, p, da + "]."@);
    lemma_starts_concat(t, p, db + "]."@);
    lemma_decimal_digits(a);
    lemma_decimal_digits(b);
    assert(s[(p.len() + da.len()) as int] == (da + "]."@)[da.len() as int]);
    assert(t[(p.len() + db.len()) as int] == (db + "]."@)[db.len() as int]);
    assert forall|k: int| 0 <= k < da.len() implies s[k] == (p + da)[k] by {
        if k < p.len() {
        } else {
            assert((da + "]."@)[k - p.len()] == da[k - p.len()]);
        }
    }
    assert forall|k: int| 0 <= k < (p + db).len() implies t[k] == (p + db)[k] by {
        if k >= p.len() {
            assert((db + "]."@)[k - p.len()] == db[k - p.len()]);
        }
    }
    assert forall|k: int| 0 <= k < (p + da).len() implies s[k] == (p + da)[k] by {
        if k >= p.len() {
            assert((da + "]."@)[k - p.len()] == da[k - p.len()]);
        }
    }
    lemma_apart(s, t, p, da, db);
}

proof fn lemma_distinct_concat(head: Seq<(Seq<char>, Seq<char>)>, tail: Seq<(Seq<char>, Seq<char>)>)
    requires
        distinct_keys(head),
        distinct_keys(tail),
        forall|x: int, y: int| 0 <= x < head.len() && 0 <= y < tail.len() ==> #[trigger] head[x].0 != #[trigger] tail[y].0,
    ensures
        distinct_keys(head + tail),
{
    let all = head + tail;
    assert forall|a: int, b: int| 0 <= a < all.len() && 0 <= b < all.len() && a != b implies all[a].0 != all[b].0 by {
        if a < head.len() && b >= head.len() {
            assert(all[b] == tail[b - head.len()]);
        } else if b < head.len() && a >= head.len() {
            assert(all[a] == tail[a - head.len()]);
        } else if a >= head.len() && b >= head.len() {
            assert(all[a] == tail[a - head.len()]);
            assert(all[b] == tail[b - head.len()]);
        }
    }
}

/// The flattened keys of a well-formed failure of one field are distinct.
pub proof fn lemma_kind_keys_distinct(key: Seq<char>, kind: ValidationErrorsKind)
    requires
        kind_wf(kind),
    ensures
        distinct_keys(kind_entries(key, kind)),
    decreases kind, 0int,
{
    match kind {
        ValidationErrorsKind::Field(_) => {},
        ValidationErrorsKind::Struct(inner) => {
            assert(decreases_to!(kind => *inner));
            lemma_errors_keys_distinct(key + "."@, *inner, 0);
        },
        ValidationErrorsKind::List(items) => {
            lemma_list_keys_distinct(key, items, 0);
        },
    }
}

/// The flattened keys of a well-formed structure's failures, from the
/// `i`-th field on, are distinct.
pub proof fn lemma_errors_keys_distinct(prefix: Seq<char>, errs: ValidationErrors, i: int)
    requires
        errors_wf(errs, i),
    ensures
        distinct_keys(errors_entries(prefix, errs, i)),
    decreases errs, errs.errors@.len() - i,
{
    if 0 <= i < errs.errors@.len() {
        let name = errs.errors@[i].0@;
        let key = prefix + name;
        let head = kind_entries(key, errs.errors@[i].1);
        let tail = errors_entries(prefix, errs, i + 1);
        lemma_kind_keys_distinct(key, errs.errors@[i].1);
        lemma_errors_keys_distinct(prefix, errs, i + 1);
        lemma_kind_shape(key, errs.errors@[i].1);
        lemma_errors_shape(prefix, errs, i + 1);
        assert(names_ok(errs));
        assert forall|x: int, y: int| 0 <= x < head.len() && 0 <= y < tail.len() implies #[trigger] head[x].0 != #[trigger] tail[y].0 by {
            let s = head[x].0;
            let t = tail[y].0;
            let j = choose|j: int| i + 1 <= j < errs.errors@.len() && starts_with(t, prefix + errs.errors@[j].0@)
                && bounded(t, prefix.len() + errs.errors@[j].0@.len());
            let other = errs.errors@[j].0@;
            assert(plain_name(name));
            assert(plain_name(other));
            assert(name != other);
            if name.len() < other.len() {
                if s.len() != prefix.len() + name.len() {
                    assert(is_separator(s[(prefix.len() + name.len()) as int]));
                    assert(!is_separator(other[name.len() as int]));
                }
            }
            if other.len() < name.len() {
                if t.len() != prefix.len() + other.len() {
                    assert(is_separator(t[(prefix.len() + other.len()) as int]));
                    assert(!is_separator(name[other.len() as int]));
                }
            }
            lemma_apart(s, t, prefix, name, other);
        }
        lemma_distinct_concat(head, tail);
        assert(errors_entries(prefix, errs, i) == head + tail);
    }
}

/// The flattened keys of well-formed list items, from the `j`-th on, are
/// distinct.
pub proof fn lemma_list_keys_distinct(key: Seq<char>, items: Vec<(usize, ValidationErrors)>, j: int)
    requires
        list_wf(items, j),
    ensures
        distinct_keys(list_entries(key, items, j)),
    decreases items, items@.len() - j,
{
    if 0 <= j < items@.len() {
        let p = key + "["@ + decimal(items@[j].0 as nat) + "]."@;
        let head = errors_entries(p, items@[j].1, 0);
        let tail = list_entries(key, items, j + 1);
        lemma_errors_keys_distinct(p, items@[j].1, 0);
        lemma_list_keys_distinct(key, items, j + 1);
        lemma_errors_shape(p, items@[j].1, 0);
        lemma_list_shape(key, items, j + 1);
        assert forall|x: int, y: int| 0 <= x < head.len() && 0 <= y < tail.len() implies #[trigger] head[x].0 != #[trigger] tail[y].0 by {
            let s = head[x].0;
            let t = tail[y].0;
            let jj = choose|jj: int| 0 <= jj < items@[j].1.errors@.len()
                && starts_with(s, p + items@[j].1.errors@[jj].0@)
                && bounded(s, p.len() + items@[j].1.errors@[jj].0@.len());
            lemma_starts_concat(s, p, items@[j].1.errors@[jj].0@);
            let k = choose|k: int| j + 1 <= k < items@.len() && starts_with(t, key + "["@ + decimal(items@[k].0 as nat) + "]."@);
            assert(items@[j].0 < items@[k].0);
            lemma_indices_apart(s, t, key, items@[j].0 as nat, items@[k].0 as nat);
        }
        lemma_distinct_concat(head, tail);
        assert(list_entries(key, items, j) == head + tail);
    }
}

} // verus!
