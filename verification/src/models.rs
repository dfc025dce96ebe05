//! Lists of models: their order by name, and how one list overrides another.

use vstd::prelude::*;

use crate::settings::{clone_models, AvailableModel};
use crate::text::{
    is_before, is_same, law_text_order_is_irreflexive, law_text_order_is_total,
    law_text_order_is_transitive, text_before,
};

verus! {

/// `a`'s name comes before `b`'s.
pub open spec fn named_before(a: AvailableModel, b: AvailableModel) -> bool {
    text_before(a.name@, b.name@)
}

/// No model stands behind one whose name comes after its own.
pub open spec fn in_name_order(models: Seq<AvailableModel>) -> bool {
    forall|i: int, j: int|
        0 <= i < j < models.len() ==> !named_before(#[trigger] models[j], #[trigger] models[i])
}

/// Whether a model has the name `name`.
pub open spec fn has_name(name: Seq<char>) -> spec_fn(AvailableModel) -> bool {
    |model: AvailableModel| model.name@ == name
}

/// The models of one name, in the order in which they stand.
pub open spec fn named(models: Seq<AvailableModel>, name: Seq<char>) -> Seq<AvailableModel> {
    models.filter(has_name(name))
}

/// `model` in front of the first of `models` whose name does not come before its own.
pub open spec fn inserted(model: AvailableModel, models: Seq<AvailableModel>) -> Seq<
    AvailableModel,
>
    decreases models.len(),
{
    if models.len() == 0 || !named_before(models[0], model) {
        seq![model] + models
    } else {
        seq![models[0]] + inserted(model, models.skip(1))
    }
}

/// `models` ordered by name, those of one name in the order in which they stood.
pub open spec fn sorted_by_name(models: Seq<AvailableModel>) -> Seq<AvailableModel>
    decreases models.len(),
{
    if models.len() == 0 {
        models
    } else {
        inserted(models[0], sorted_by_name(models.skip(1)))
    }
}

proof fn lemma_inserted_at(model: AvailableModel, models: Seq<AvailableModel>, at: int)
    requires
        0 <= at <= models.len(),
        forall|i: int| 0 <= i < at ==> named_before(#[trigger] models[i], model),
        at < models.len() ==> !named_before(models[at], model),
    ensures
        inserted(model, models) == models.insert(at, model),
    decreases at,
{
    if at == 0 {
        assert(seq![model] + models =~= models.insert(0, model));
    } else {
        assert(named_before(models[0], model));
        let rest = models.skip(1);
        assert forall|i: int| 0 <= i < at - 1 implies named_before(#[trigger] rest[i], model) by {
            assert(rest[i] == models[i + 1]);
        }
        lemma_inserted_at(model, rest, at - 1);
        assert(seq![models[0]] + rest.insert(at - 1, model) =~= models.insert(at, model));
    }
}

/// Orders `models` by name. Models of one name keep their order.
pub fn sort_models(models: &mut Vec<AvailableModel>)
    ensures
        final(models)@ == sorted_by_name(old(models)@),
{
    let mut sorted: Vec<AvailableModel> = Vec::new();
    let ghost all = models@;
    proof {
        assert(all.take(all.len() as int) =~= all);
        assert(all.skip(all.len() as int) =~= Seq::<AvailableModel>::empty());
    }
    while models.len() > 0
        invariant
            models@.len() <= all.len(),
            models@ == all.take(models@.len() as int),
            sorted@ == sorted_by_name(all.skip(models@.len() as int)),
        decreases models@.len(),
    {
        let left: usize = models.len() - 1;
        let model = models.remove(left);
        let mut at: usize = 0;
        while at < sorted.len() && is_before(sorted[at].name.as_str(), model.name.as_str())
            invariant
                at <= sorted@.len(),
                forall|i: int| 0 <= i < at ==> named_before(#[trigger] sorted@[i], model),
            decreases sorted@.len() - at,
        {
            at = at + 1;
        }
        proof {
            lemma_inserted_at(model, sorted@, at as int);
            assert(all.skip(left as int)[0] == model);
            assert(all.skip(left as int).skip(1) =~= all.skip(left + 1));
            assert(models@ =~= all.take(left as int));
        }
        sorted.insert(at, model);
    }
    proof {
        assert(all.skip(0) =~= all);
    }
    *models = sorted;
}

proof fn lemma_named_front(model: AvailableModel, models: Seq<AvailableModel>, name: Seq<char>)
    ensures
        named(seq![model] + models, name) == (if model.name@ == name {
            seq![model] + named(models, name)
        } else {
            named(models, name)
        }),
{
    let of_name = has_name(name);
    reveal_with_fuel(Seq::filter, 2);
    Seq::filter_distributes_over_add(seq![model], models, of_name);
    assert(seq![model].drop_last() =~= Seq::<AvailableModel>::empty());
    if model.name@ == name {
        assert(seq![model].filter(of_name) =~= seq![model]);
    } else {
        assert(seq![model].filter(of_name) =~= Seq::<AvailableModel>::empty());
        assert(Seq::<AvailableModel>::empty() + models.filter(of_name) =~= models.filter(of_name));
    }
}

proof fn lemma_inserted_named(model: AvailableModel, models: Seq<AvailableModel>, name: Seq<char>)
    ensures
        named(inserted(model, models), name) == named(seq![model] + models, name),
    decreases models.len(),
{
    if models.len() > 0 && named_before(models[0], model) {
        let rest = models.skip(1);
        lemma_inserted_named(model, rest, name);
        lemma_named_front(models[0], inserted(model, rest), name);
        lemma_named_front(model, rest, name);
        lemma_named_front(model, models, name);
        lemma_named_front(models[0], rest, name);
        assert(models =~= seq![models[0]] + rest);
        law_text_order_is_irreflexive(model.name@);
    }
}

proof fn lemma_inserted_from(model: AvailableModel, models: Seq<AvailableModel>)
    ensures
        inserted(model, models).len() == models.len() + 1,
        forall|i: int|
            0 <= i < inserted(model, models).len() ==> (#[trigger] inserted(model, models)[i]
                == model || models.contains(inserted(model, models)[i])),
    decreases models.len(),
{
    let all = inserted(model, models);
    if models.len() == 0 || !named_before(models[0], model) {
        assert forall|i: int| 0 <= i < all.len() implies (#[trigger] all[i] == model
            || models.contains(all[i])) by {
            if i > 0 {
                assert(all[i] == models[i - 1]);
            }
        }
    } else {
        let rest = models.skip(1);
        lemma_inserted_from(model, rest);
        assert forall|i: int| 0 <= i < all.len() implies (#[trigger] all[i] == model
            || models.contains(all[i])) by {
            if i == 0 {
                assert(all[0] == models[0]);
            } else {
                assert(all[i] == inserted(model, rest)[i - 1]);
                if all[i] != model {
                    let k = choose|k: int| 0 <= k < rest.len() && rest[k] == all[i];
                    assert(models[k + 1] == all[i]);
                }
            }
        }
    }
}

proof fn lemma_inserted_in_order(model: AvailableModel, models: Seq<AvailableModel>)
    requires
        in_name_order(models),
    ensures
        in_name_order(inserted(model, models)),
    decreases models.len(),
{
    let all = inserted(model, models);
    if models.len() == 0 || !named_before(models[0], model) {
        assert forall|i: int, j: int| 0 <= i < j < all.len() implies !named_before(
            #[trigger] all[j],
            #[trigger] all[i],
        ) by {
            assert(all[j] == models[j - 1]);
            if i > 0 {
                assert(all[i] == models[i - 1]);
            } else if j > 1 && named_before(models[j - 1], model) {
                law_text_order_is_total(models[0].name@, models[j - 1].name@);
                if named_before(models[0], models[j - 1]) {
                    law_text_order_is_transitive(
                        models[0].name@,
                        models[j - 1].name@,
                        model.name@,
                    );
                }
            }
        }
    } else {
        let rest = models.skip(1);
        assert(in_name_order(rest)) by {
            assert forall|i: int, j: int| 0 <= i < j < rest.len() implies !named_before(
                #[trigger] rest[j],
                #[trigger] rest[i],
            ) by {
                assert(rest[j] == models[j + 1] && rest[i] == models[i + 1]);
            }
        }
        lemma_inserted_in_order(model, rest);
        lemma_inserted_from(model, rest);
        assert forall|i: int, j: int| 0 <= i < j < all.len() implies !named_before(
            #[trigger] all[j],
            #[trigger] all[i],
        ) by {
            let tail = inserted(model, rest);
            assert(all[j] == tail[j - 1]);
            if i > 0 {
                assert(all[i] == tail[i - 1]);
            } else if all[j] == model {
                if named_before(model, models[0]) {
                    law_text_order_is_transitive(models[0].name@, model.name@, models[0].name@);
                    law_text_order_is_irreflexive(models[0].name@);
                }
            } else {
                let k = choose|k: int| 0 <= k < rest.len() && rest[k] == all[j];
                assert(models[k + 1] == all[j]);
            }
        }
    }
}

/// Sorted models stand in the order of their names, and those of one name are the ones that were
/// there, in the order in which they stood.
pub proof fn law_sorting_is_stable(models: Seq<AvailableModel>)
    ensures
        in_name_order(sorted_by_name(models)),
        sorted_by_name(models).len() == models.len(),
        forall|name: Seq<char>|
            #![trigger named(sorted_by_name(models), name)]
            named(sorted_by_name(models), name) == named(models, name),
    decreases models.len(),
{
    if models.len() > 0 {
        let rest = models.skip(1);
        law_sorting_is_stable(rest);
        lemma_inserted_in_order(models[0], sorted_by_name(rest));
        lemma_inserted_from(models[0], sorted_by_name(rest));
        assert forall|name: Seq<char>|
            #![trigger named(sorted_by_name(models), name)]
            named(sorted_by_name(models), name) == named(models, name) by {
            lemma_inserted_named(models[0], sorted_by_name(rest), name);
            lemma_named_front(models[0], sorted_by_name(rest), name);
            lemma_named_front(models[0], rest, name);
            assert(named(sorted_by_name(rest), name) == named(rest, name));
            assert(models =~= seq![models[0]] + rest);
        }
    }
}

proof fn lemma_named_nonempty(models: Seq<AvailableModel>, name: Seq<char>)
    requires
        named(models, name).len() > 0,
    ensures
        exists|i: int| 0 <= i < models.len() && (#[trigger] models[i]).name@ == name,
{
    let of_name = has_name(name);
    let found = models.filter(of_name)[0];
    models.lemma_filter_pred(of_name, 0);
    assert(models.filter(of_name).contains(found));
    models.lemma_filter_contains_rev(of_name, found);
    let i = choose|i: int| 0 <= i < models.len() && models[i] == found;
    assert(models[i].name@ == name);
}

proof fn lemma_first_name_is_least(a: Seq<AvailableModel>, b: Seq<AvailableModel>)
    requires
        a.len() > 0,
        b.len() > 0,
        in_name_order(b),
        named(b, a[0].name@).len() > 0,
    ensures
        !named_before(a[0], b[0]),
{
    lemma_named_nonempty(b, a[0].name@);
    let i = choose|i: int| 0 <= i < b.len() && (#[trigger] b[i]).name@ == a[0].name@;
    if i == 0 {
        law_text_order_is_irreflexive(b[0].name@);
    } else {
        assert(!named_before(b[i], b[0]));
    }
}

/// There is only one list in the order of its names that holds, of each name, the same models in
/// the same order.
pub proof fn law_stable_order_is_unique(a: Seq<AvailableModel>, b: Seq<AvailableModel>)
    requires
        in_name_order(a),
        in_name_order(b),
        forall|name: Seq<char>| #[trigger] named(a, name) == named(b, name),
    ensures
        a == b,
    decreases a.len(),
{
    if a.len() == 0 {
        if b.len() > 0 {
            lemma_named_front(b[0], b.skip(1), b[0].name@);
            assert(b =~= seq![b[0]] + b.skip(1));
            assert(named(a, b[0].name@) == named(b, b[0].name@));
            lemma_named_nonempty(a, b[0].name@);
        }
        assert(a =~= b);
    } else {
        let a1 = a.skip(1);
        assert(a =~= seq![a[0]] + a1);
        lemma_named_front(a[0], a1, a[0].name@);
        assert(named(a, a[0].name@) == named(b, a[0].name@));
        if b.len() == 0 {
            lemma_named_nonempty(b, a[0].name@);
        }
        let b1 = b.skip(1);
        assert(b =~= seq![b[0]] + b1);
        lemma_named_front(b[0], b1, b[0].name@);
        assert(named(a, b[0].name@) == named(b, b[0].name@));
        lemma_first_name_is_least(a, b);
        lemma_first_name_is_least(b, a);
        law_text_order_is_total(a[0].name@, b[0].name@);
        assert(a[0].name@ == b[0].name@);
        assert(named(a, a[0].name@)[0] == a[0]);
        assert(named(b, a[0].name@)[0] == b[0]);
        assert forall|name: Seq<char>| #[trigger] named(a1, name) == named(b1, name) by {
            lemma_named_front(a[0], a1, name);
            lemma_named_front(b[0], b1, name);
            assert(named(a, name) == named(b, name));
            if a[0].name@ == name {
                assert((seq![a[0]] + named(a1, name)).skip(1) =~= named(a1, name));
                assert((seq![b[0]] + named(b1, name)).skip(1) =~= named(b1, name));
            }
        }
        assert(in_name_order(a1)) by {
            assert forall|i: int, j: int| 0 <= i < j < a1.len() implies !named_before(
                #[trigger] a1[j],
                #[trigger] a1[i],
            ) by {
                assert(a1[j] == a[j + 1] && a1[i] == a[i + 1]);
            }
        }
        assert(in_name_order(b1)) by {
            assert forall|i: int, j: int| 0 <= i < j < b1.len() implies !named_before(
                #[trigger] b1[j],
                #[trigger] b1[i],
            ) by {
                assert(b1[j] == b[j + 1] && b1[i] == b[i + 1]);
            }
        }
        law_stable_order_is_unique(a1, b1);
    }
}

/// The models by name. A later model of a name replaces an earlier one.
pub open spec fn by_name(models: Seq<AvailableModel>) -> Map<Seq<char>, AvailableModel>
    decreases models.len(),
{
    if models.len() == 0 {
        Map::empty()
    } else {
        by_name(models.drop_last()).insert(models.last().name@, models.last())
    }
}

/// The names come in order, and none occurs twice.
pub open spec fn names_ascend(models: Seq<AvailableModel>) -> bool {
    forall|i: int, j: int|
        0 <= i < j < models.len() ==> named_before(#[trigger] models[i], #[trigger] models[j])
}

/// `merged` is what a provider offers where it discovered `fetched` and the user wrote `manual`:
/// the user's list as it is where nothing was discovered, and else one model of each name, in
/// the order of the names, the last one of the two lists together.
pub open spec fn is_merged(
    fetched: Seq<AvailableModel>,
    manual: Seq<AvailableModel>,
    merged: Seq<AvailableModel>,
) -> bool {
    if fetched.len() == 0 {
        merged == manual
    } else {
        names_ascend(merged) && by_name(merged) == by_name(fetched + manual)
    }
}

proof fn lemma_by_name_ascending(models: Seq<AvailableModel>)
    requires
        names_ascend(models),
    ensures
        forall|i: int|
            0 <= i < models.len() ==> by_name(models).contains_key((#[trigger] models[i]).name@)
                && by_name(models)[models[i].name@] == models[i],
        forall|name: Seq<char>| #[trigger]
            by_name(models).contains_key(name) ==> exists|i: int|
                0 <= i < models.len() && (#[trigger] models[i]).name@ == name,
    decreases models.len(),
{
    if models.len() > 0 {
        let front = models.drop_last();
        let last = models.last();
        assert(names_ascend(front));
        lemma_by_name_ascending(front);
        assert forall|i: int| 0 <= i < models.len() implies by_name(models).contains_key(
            (#[trigger] models[i]).name@,
        ) && by_name(models)[models[i].name@] == models[i] by {
            if i < front.len() {
                assert(front[i] == models[i]);
                assert(named_before(models[i], models[models.len() - 1]));
                law_text_order_is_irreflexive(last.name@);
            }
        }
        assert forall|name: Seq<char>| #[trigger] by_name(models).contains_key(name) implies exists|
            i: int,
        |
            0 <= i < models.len() && (#[trigger] models[i]).name@ == name by {
            if name == last.name@ {
                assert(models[models.len() - 1].name@ == name);
            } else {
                assert(by_name(front).contains_key(name));
                let i = choose|i: int| 0 <= i < front.len() && (#[trigger] front[i]).name@ == name;
                assert(models[i].name@ == name);
            }
        }
    }
}

/// Adds `model` to a list whose names ascend, in place of one of the same name.
fn put_model(models: &mut Vec<AvailableModel>, model: AvailableModel)
    requires
        names_ascend(old(models)@),
    ensures
        names_ascend(final(models)@),
        by_name(final(models)@) == by_name(old(models)@).insert(model.name@, model),
{
    let ghost before = models@;
    let mut at: usize = 0;
    while at < models.len() && is_before(models[at].name.as_str(), model.name.as_str())
        invariant
            at <= models@.len(),
            models@ == before,
            forall|i: int| 0 <= i < at ==> named_before(#[trigger] models@[i], model),
        decreases models@.len() - at,
    {
        at = at + 1;
    }
    let ghost added = model;
    if at < models.len() && is_same(models[at].name.as_str(), model.name.as_str()) {
        models.set(at, model);
        proof {
            let after = models@;
            assert(after =~= before.update(at as int, added));
            assert forall|i: int, j: int| 0 <= i < j < after.len() implies named_before(
                #[trigger] after[i],
                #[trigger] after[j],
            ) by {
                assert(named_before(before[i], before[j]));
            }
            lemma_by_name_ascending(before);
            lemma_by_name_ascending(after);
            assert forall|name: Seq<char>| by_name(after).contains_key(name) <==> by_name(
                before,
            ).insert(added.name@, added).contains_key(name) by {
                if by_name(after).contains_key(name) {
                    let i = choose|i: int|
                        0 <= i < after.len() && (#[trigger] after[i]).name@ == name;
                    assert(before[i].name@ == name);
                }
                if name != added.name@ && by_name(before).contains_key(name) {
                    let i = choose|i: int|
                        0 <= i < before.len() && (#[trigger] before[i]).name@ == name;
                    assert(after[i].name@ == name);
                }
                assert(after[at as int] == added);
            }
            assert forall|name: Seq<char>| by_name(after).contains_key(name) implies by_name(
                after,
            )[name] == by_name(before).insert(added.name@, added)[name] by {
                let i = choose|i: int| 0 <= i < after.len() && (#[trigger] after[i]).name@ == name;
                if i != at {
                    assert(before[i] == after[i]);
                    if i < at {
                        assert(named_before(after[i], after[at as int]));
                    } else {
                        assert(named_before(after[at as int], after[i]));
                    }
                    law_text_order_is_irreflexive(name);
                }
            }
            assert(by_name(after) =~= by_name(before).insert(added.name@, added));
        }
    } else {
        models.insert(at, model);
        proof {
            let after = models@;
            assert(after =~= before.insert(at as int, added));
            if at < before.len() {
                law_text_order_is_total(before[at as int].name@, added.name@);
            }
            assert forall|i: int, j: int| 0 <= i < j < after.len() implies named_before(
                #[trigger] after[i],
                #[trigger] after[j],
            ) by {
                if j < at {
                    assert(named_before(before[i], before[j]));
                } else if j == at {
                    assert(named_before(before[i], added));
                } else if i == at {
                    assert(after[j] == before[j - 1]);
                    if j - 1 > at {
                        assert(named_before(before[at as int], before[j - 1]));
                        law_text_order_is_transitive(
                            added.name@,
                            before[at as int].name@,
                            before[j - 1].name@,
                        );
                    }
                } else if i < at {
                    assert(named_before(before[i], before[j - 1]));
                } else {
                    assert(named_before(before[i - 1], before[j - 1]));
                }
            }
            lemma_by_name_ascending(before);
            lemma_by_name_ascending(after);
            assert forall|name: Seq<char>| by_name(after).contains_key(name) <==> by_name(
                before,
            ).insert(added.name@, added).contains_key(name) by {
                if by_name(after).contains_key(name) {
                    let i = choose|i: int|
                        0 <= i < after.len() && (#[trigger] after[i]).name@ == name;
                    if i < at {
                        assert(before[i].name@ == name);
                    } else if i > at {
                        assert(before[i - 1].name@ == name);
                    }
                }
                if name != added.name@ && by_name(before).contains_key(name) {
                    let i = choose|i: int|
                        0 <= i < before.len() && (#[trigger] before[i]).name@ == name;
                    if i < at {
                        assert(after[i].name@ == name);
                    } else {
                        assert(after[i + 1].name@ == name);
                    }
                }
                assert(after[at as int] == added);
            }
            assert forall|name: Seq<char>| by_name(after).contains_key(name) implies by_name(
                after,
            )[name] == by_name(before).insert(added.name@, added)[name] by {
                let i = choose|i: int| 0 <= i < after.len() && (#[trigger] after[i]).name@ == name;
                law_text_order_is_irreflexive(name);
                if i < at {
                    assert(before[i] == after[i]);
                    assert(named_before(after[i], after[at as int]));
                } else if i > at {
                    assert(before[i - 1] == after[i]);
                    assert(named_before(after[at as int], after[i]));
                }
            }
            assert(by_name(after) =~= by_name(before).insert(added.name@, added));
        }
    }
}

/// Two lists one behind the other, by name: the second one comes before the first.
proof fn lemma_by_name_of_both(a: Seq<AvailableModel>, b: Seq<AvailableModel>)
    ensures
        by_name(a + b) == by_name(a).union_prefer_right(by_name(b)),
    decreases b.len(),
{
    if b.len() == 0 {
        assert(a + b =~= a);
        assert(by_name(a).union_prefer_right(by_name(b)) =~= by_name(a));
    } else {
        let front = b.drop_last();
        lemma_by_name_of_both(a, front);
        assert((a + b).drop_last() =~= a + front);
        assert((a + b).last() == b.last());
        assert(by_name(a + b) =~= by_name(a).union_prefer_right(by_name(b)));
    }
}

/// Puts each of `models`, in order, into a list whose names ascend.
fn put_models(merged: &mut Vec<AvailableModel>, models: &Vec<AvailableModel>)
    requires
        names_ascend(old(merged)@),
    ensures
        names_ascend(final(merged)@),
        by_name(final(merged)@) == by_name(old(merged)@).union_prefer_right(by_name(models@)),
{
    let ghost before = merged@;
    let mut i: usize = 0;
    proof {
        assert(models@.take(0) =~= Seq::<AvailableModel>::empty());
        assert(by_name(before).union_prefer_right(by_name(models@.take(0))) =~= by_name(before));
    }
    while i < models.len()
        invariant
            i <= models@.len(),
            names_ascend(merged@),
            by_name(merged@) == by_name(before).union_prefer_right(
                by_name(models@.take(i as int)),
            ),
        decreases models@.len() - i,
    {
        put_model(merged, models[i].clone());
        proof {
            assert(models@.take(i + 1).drop_last() =~= models@.take(i as int));
            assert(by_name(merged@) =~= by_name(before).union_prefer_right(
                by_name(models@.take(i + 1)),
            ));
        }
        i = i + 1;
    }
    proof {
        assert(models@.take(i as int) =~= models@);
    }
}

/// What a provider offers where it discovered `fetched` and the user wrote `manual`.
pub fn merge_models(fetched: &Vec<AvailableModel>, manual: &Vec<AvailableModel>) -> (res: Vec<
    AvailableModel,
>)
    ensures
        is_merged(fetched@, manual@, res@),
{
    if fetched.len() == 0 {
        return clone_models(manual);
    }
    let mut merged: Vec<AvailableModel> = Vec::new();
    put_models(&mut merged, fetched);
    proof {
        let none: Map<Seq<char>, AvailableModel> = Map::empty();
        assert(none.union_prefer_right(by_name(fetched@)) =~= by_name(fetched@));
        lemma_by_name_of_both(fetched@, manual@);
    }
    put_models(&mut merged, manual);
    merged
}

/// What is offered follows from what was discovered and what the user wrote.
pub proof fn law_merge_is_unique(
    fetched: Seq<AvailableModel>,
    manual: Seq<AvailableModel>,
    a: Seq<AvailableModel>,
    b: Seq<AvailableModel>,
)
    requires
        is_merged(fetched, manual, a),
        is_merged(fetched, manual, b),
    ensures
        a == b,
{
    if fetched.len() > 0 {
        lemma_ascending_is_unique(a, b);
    }
}

/// A model that the user wrote is offered in place of every discovered one of its name; where the
/// user wrote none of a name, the discovered one is offered.
pub proof fn law_manual_overrides_discovered(
    fetched: Seq<AvailableModel>,
    manual: Seq<AvailableModel>,
    merged: Seq<AvailableModel>,
)
    requires
        is_merged(fetched, manual, merged),
        fetched.len() > 0,
    ensures
        forall|name: Seq<char>| #[trigger]
            by_name(merged).contains_key(name) <==> by_name(manual).contains_key(name) || by_name(
                fetched,
            ).contains_key(name),
        forall|i: int|
            0 <= i < merged.len() ==> #[trigger] merged[i] == (if by_name(manual).contains_key(
                merged[i].name@,
            ) {
                by_name(manual)[merged[i].name@]
            } else {
                by_name(fetched)[merged[i].name@]
            }),
{
    lemma_by_name_of_both(fetched, manual);
    lemma_by_name_ascending(merged);
}

/// Every model that is offered is one that was discovered or that the user wrote.
pub proof fn law_nothing_else_is_offered(
    fetched: Seq<AvailableModel>,
    manual: Seq<AvailableModel>,
    merged: Seq<AvailableModel>,
    i: int,
)
    requires
        is_merged(fetched, manual, merged),
        0 <= i < merged.len(),
    ensures
        fetched.contains(merged[i]) || manual.contains(merged[i]),
{
    if fetched.len() > 0 {
        lemma_by_name_ascending(merged);
        assert(by_name(merged).contains_key(merged[i].name@));
        lemma_by_name_from(fetched + manual, merged[i].name@);
        let k = choose|k: int|
            0 <= k < (fetched + manual).len() && (fetched + manual)[k] == merged[i];
        if k < fetched.len() {
            assert(fetched[k] == merged[i]);
        } else {
            assert(manual[k - fetched.len()] == merged[i]);
        }
    }
}

/// No name is lost: a provider offers a model of every name that was discovered or written.
pub proof fn law_every_name_is_offered(
    fetched: Seq<AvailableModel>,
    manual: Seq<AvailableModel>,
    merged: Seq<AvailableModel>,
    model: AvailableModel,
)
    requires
        is_merged(fetched, manual, merged),
        fetched.contains(model) || manual.contains(model),
    ensures
        exists|i: int| 0 <= i < merged.len() && (#[trigger] merged[i]).name@ == model.name@,
{
    if fetched.len() == 0 {
        let k = choose|k: int| 0 <= k < manual.len() && manual[k] == model;
        assert(merged[k].name@ == model.name@);
    } else {
        let both = fetched + manual;
        if fetched.contains(model) {
            let k = choose|k: int| 0 <= k < fetched.len() && fetched[k] == model;
            assert(both[k] == model);
        } else {
            let k = choose|k: int| 0 <= k < manual.len() && manual[k] == model;
            assert(both[k + fetched.len()] == model);
        }
        lemma_by_name_has(both, model);
        lemma_by_name_ascending(merged);
        assert(by_name(merged).contains_key(model.name@));
    }
}

proof fn lemma_by_name_from(models: Seq<AvailableModel>, name: Seq<char>)
    requires
        by_name(models).contains_key(name),
    ensures
        models.contains(by_name(models)[name]),
        by_name(models)[name].name@ == name,
    decreases models.len(),
{
    if name == models.last().name@ {
        assert(models[models.len() - 1] == by_name(models)[name]);
    } else {
        let front = models.drop_last();
        lemma_by_name_from(front, name);
        let k = choose|k: int| 0 <= k < front.len() && front[k] == by_name(front)[name];
        assert(models[k] == by_name(models)[name]);
    }
}

proof fn lemma_by_name_has(models: Seq<AvailableModel>, model: AvailableModel)
    requires
        models.contains(model),
    ensures
        by_name(models).contains_key(model.name@),
    decreases models.len(),
{
    let k = choose|k: int| 0 <= k < models.len() && models[k] == model;
    if k < models.len() - 1 {
        assert(models.drop_last()[k] == model);
        lemma_by_name_has(models.drop_last(), model);
    }
}

proof fn lemma_ascending_is_in_order(models: Seq<AvailableModel>)
    requires
        names_ascend(models),
    ensures
        in_name_order(models),
{
    assert forall|i: int, j: int| 0 <= i < j < models.len() implies !named_before(
        #[trigger] models[j],
        #[trigger] models[i],
    ) by {
        assert(named_before(models[i], models[j]));
        if named_before(models[j], models[i]) {
            law_text_order_is_transitive(models[i].name@, models[j].name@, models[i].name@);
            law_text_order_is_irreflexive(models[i].name@);
        }
    }
}

proof fn lemma_ascending_last(a: Seq<AvailableModel>, b: Seq<AvailableModel>)
    requires
        names_ascend(a),
        names_ascend(b),
        by_name(a) == by_name(b),
        a.len() > 0,
    ensures
        b.len() > 0,
        !named_before(b.last(), a.last()),
{
    lemma_by_name_ascending(a);
    lemma_by_name_ascending(b);
    assert(by_name(a).contains_key(a[a.len() - 1].name@));
    let i = choose|i: int| 0 <= i < b.len() && (#[trigger] b[i]).name@ == a.last().name@;
    lemma_ascending_is_in_order(b);
    if i == b.len() - 1 {
        law_text_order_is_irreflexive(a.last().name@);
    } else {
        assert(!named_before(b[b.len() - 1], b[i]));
    }
}

proof fn lemma_ascending_is_unique(a: Seq<AvailableModel>, b: Seq<AvailableModel>)
    requires
        names_ascend(a),
        names_ascend(b),
        by_name(a) == by_name(b),
    ensures
        a == b,
    decreases a.len(),
{
    if a.len() == 0 {
        if b.len() > 0 {
            lemma_ascending_last(b, a);
        }
        assert(a =~= b);
    } else {
        lemma_ascending_last(a, b);
        lemma_ascending_last(b, a);
        law_text_order_is_total(a.last().name@, b.last().name@);
        lemma_by_name_ascending(a);
        lemma_by_name_ascending(b);
        assert(a[a.len() - 1] == b[b.len() - 1]);
        let name = a.last().name@;
        lemma_without_last(a);
        lemma_without_last(b);
        assert(by_name(a.drop_last()) == by_name(a).remove(name));
        assert(by_name(b.drop_last()) == by_name(b).remove(name));
        lemma_ascending_is_unique(a.drop_last(), b.drop_last());
        assert(a =~= a.drop_last().push(a.last()));
        assert(b =~= b.drop_last().push(b.last()));
    }
}

proof fn lemma_without_last(models: Seq<AvailableModel>)
    requires
        names_ascend(models),
        models.len() > 0,
    ensures
        names_ascend(models.drop_last()),
        by_name(models.drop_last()) == by_name(models).remove(models.last().name@),
{
    let front = models.drop_last();
    let name = models.last().name@;
    assert(names_ascend(front));
    lemma_by_name_ascending(front);
    if by_name(front).contains_key(name) {
        let i = choose|i: int| 0 <= i < front.len() && (#[trigger] front[i]).name@ == name;
        assert(named_before(models[i], models[models.len() - 1]));
        law_text_order_is_irreflexive(name);
    }
    assert(by_name(front) =~= by_name(models).remove(name));
}

/// Model `k` is the last one of its name.
pub open spec fn last_of_its_name(models: Seq<AvailableModel>, k: int) -> bool {
    &&& 0 <= k < models.len()
    &&& forall|i: int| k < i < models.len() ==> (#[trigger] models[i]).name@ != models[k].name@
}

proof fn lemma_last_of_its_name_holds(models: Seq<AvailableModel>, k: int)
    requires
        last_of_its_name(models, k),
    ensures
        by_name(models).contains_key(models[k].name@),
        by_name(models)[models[k].name@] == models[k],
    decreases models.len(),
{
    if k < models.len() - 1 {
        assert(models[models.len() - 1].name@ != models[k].name@);
        let front = models.drop_last();
        assert(last_of_its_name(front, k)) by {
            assert forall|i: int| k < i < front.len() implies (#[trigger] front[i]).name@
                != front[k].name@ by {
                assert(front[i] == models[i]);
            }
        }
        lemma_last_of_its_name_holds(front, k);
    }
}

proof fn lemma_last_of_both_is_offered(
    fetched: Seq<AvailableModel>,
    manual: Seq<AvailableModel>,
    merged: Seq<AvailableModel>,
    k: int,
)
    requires
        is_merged(fetched, manual, merged),
        fetched.len() > 0,
        last_of_its_name(fetched + manual, k),
    ensures
        merged.contains((fetched + manual)[k]),
{
    let both = fetched + manual;
    let name = both[k].name@;
    lemma_last_of_its_name_holds(both, k);
    lemma_by_name_ascending(merged);
    assert(by_name(merged).contains_key(name));
    let i = choose|i: int| 0 <= i < merged.len() && (#[trigger] merged[i]).name@ == name;
    assert(merged[i] == both[k]);
}

/// Of the models that the user wrote under one name, the last one is offered, whatever was
/// discovered.
pub proof fn law_last_written_model_is_offered(
    fetched: Seq<AvailableModel>,
    manual: Seq<AvailableModel>,
    merged: Seq<AvailableModel>,
    k: int,
)
    requires
        is_merged(fetched, manual, merged),
        last_of_its_name(manual, k),
    ensures
        merged.contains(manual[k]),
{
    if fetched.len() == 0 {
        assert(merged[k] == manual[k]);
    } else {
        let both = fetched + manual;
        let at = fetched.len() + k;
        assert forall|i: int| at < i < both.len() implies (#[trigger] both[i]).name@
            != both[at].name@ by {
            assert(both[i] == manual[i - fetched.len()]);
        }
        lemma_last_of_both_is_offered(fetched, manual, merged, at);
    }
}

/// Of the models that were discovered under a name that the user did not write, the last one is
/// offered.
pub proof fn law_last_discovered_model_is_offered(
    fetched: Seq<AvailableModel>,
    manual: Seq<AvailableModel>,
    merged: Seq<AvailableModel>,
    k: int,
)
    requires
        is_merged(fetched, manual, merged),
        last_of_its_name(fetched, k),
        forall|i: int| 0 <= i < manual.len() ==> (#[trigger] manual[i]).name@ != fetched[k].name@,
    ensures
        merged.contains(fetched[k]),
{
    let both = fetched + manual;
    assert forall|i: int| k < i < both.len() implies (#[trigger] both[i]).name@
        != both[k].name@ by {
        if i < fetched.len() {
            assert(both[i] == fetched[i]);
        } else {
            assert(both[i] == manual[i - fetched.len()]);
        }
    }
    lemma_last_of_both_is_offered(fetched, manual, merged, k);
}

/// Where models were discovered, the names of those offered come in order, and none comes twice.
pub proof fn law_offered_names_ascend(
    fetched: Seq<AvailableModel>,
    manual: Seq<AvailableModel>,
    merged: Seq<AvailableModel>,
    i: int,
    j: int,
)
    requires
        is_merged(fetched, manual, merged),
        fetched.len() > 0,
        0 <= i < j < merged.len(),
    ensures
        text_before(merged[i].name@, merged[j].name@),
{
    assert(named_before(merged[i], merged[j]));
}

/// Of two sorted models, the name of the second one does not come before that of the first.
pub proof fn law_sorted_names_come_in_order(models: Seq<AvailableModel>, i: int, j: int)
    requires
        0 <= i < j < models.len(),
    ensures
        !text_before(sorted_by_name(models)[j].name@, sorted_by_name(models)[i].name@),
{
    law_sorting_is_stable(models);
    assert(!named_before(sorted_by_name(models)[j], sorted_by_name(models)[i]));
}

/// Sorting loses no model and adds none, and the models of one name keep their order.
pub proof fn law_sorting_keeps_models(models: Seq<AvailableModel>, name: Seq<char>)
    ensures
        sorted_by_name(models).len() == models.len(),
        sorted_by_name(models).filter(|model: AvailableModel| model.name@ == name)
            == models.filter(|model: AvailableModel| model.name@ == name),
{
    law_sorting_is_stable(models);
    assert(has_name(name) =~= (|model: AvailableModel| model.name@ == name));
    assert(named(sorted_by_name(models), name) == named(models, name));
}

} // verus!
