//! Laws of resolution, stated over the models that the resolvers' contracts use.

use vstd::prelude::*;
use crate::ask::resolve_ask;
use crate::comment::resolve_comment;
use crate::item::{ids_or_empty, ItemView};
use crate::job::resolve_job;
use crate::poll::{resolve_poll, resolve_poll_option};
use crate::story::resolve_story;

verus! {

/// A record tagged "comment" that holds an author, a parent, a text and a time
/// resolves to a comment, and the comment carries those fields, the id and the
/// reply ids unchanged.
pub proof fn comment_fields_preserved(i: ItemView)
    requires
        i.kind == Some("comment"@),
        i.by is Some,
        i.parent is Some,
        i.text is Some,
        i.time is Some,
    ensures
        resolve_comment(i) is Some,
        resolve_comment(i)->0.by == i.by->0,
        resolve_comment(i)->0.id == i.id,
        resolve_comment(i)->0.kids == ids_or_empty(i.kids),
        resolve_comment(i)->0.parent == i.parent->0,
        resolve_comment(i)->0.text == i.text->0,
        resolve_comment(i)->0.time == i.time->0,
{
}

/// A record whose kind tag is absent or other than an entity's own tag never
/// resolves to that entity, whatever its other fields hold.
pub proof fn wrong_tag_never_resolves(i: ItemView)
    ensures
        i.kind != Some("story"@) ==> resolve_story(i) is None && resolve_ask(i) is None,
        i.kind != Some("comment"@) ==> resolve_comment(i) is None,
        i.kind != Some("job"@) ==> resolve_job(i) is None,
        i.kind != Some("poll"@) ==> resolve_poll(i) is None,
        i.kind != Some("pollopt"@) ==> resolve_poll_option(i) is None,
{
}

/// The record `i` with its comment ids and poll option ids taken away.
pub open spec fn without_lists(i: ItemView) -> ItemView {
    ItemView { kids: None, parts: None, ..i }
}

/// Taking away a record's id lists never makes it fail to resolve: it resolves
/// exactly when it did before, and the entity then holds empty lists.
pub proof fn absent_lists_resolve_empty(i: ItemView)
    ensures
        resolve_story(without_lists(i)) is Some == resolve_story(i) is Some,
        resolve_story(without_lists(i)) is Some ==> resolve_story(without_lists(i))->0.kids
            == Seq::<u64>::empty(),
        resolve_ask(without_lists(i)) is Some == resolve_ask(i) is Some,
        resolve_ask(without_lists(i)) is Some ==> resolve_ask(without_lists(i))->0.kids
            == Seq::<u64>::empty(),
        resolve_comment(without_lists(i)) is Some == resolve_comment(i) is Some,
        resolve_comment(without_lists(i)) is Some ==> resolve_comment(without_lists(i))->0.kids
            == Seq::<u64>::empty(),
        resolve_poll(without_lists(i)) is Some == resolve_poll(i) is Some,
        resolve_poll(without_lists(i)) is Some ==> resolve_poll(without_lists(i))->0.kids
            == Seq::<u64>::empty() && resolve_poll(without_lists(i))->0.parts
            == Seq::<u64>::empty(),
{
}

/// A record that lacks a field which an entity requires never resolves to
/// that entity, whatever its tag.
pub proof fn missing_field_never_resolves(i: ItemView)
    ensures
        i.by is None ==> resolve_story(i) is None && resolve_ask(i) is None && resolve_comment(i)
            is None && resolve_job(i) is None && resolve_poll(i) is None && resolve_poll_option(i)
            is None,
        i.time is None ==> resolve_story(i) is None && resolve_ask(i) is None && resolve_comment(i)
            is None && resolve_job(i) is None && resolve_poll(i) is None && resolve_poll_option(i)
            is None,
        i.descendants is None ==> resolve_story(i) is None && resolve_ask(i) is None
            && resolve_poll(i) is None,
        i.score is None ==> resolve_story(i) is None && resolve_ask(i) is None && resolve_job(i)
            is None && resolve_poll(i) is None && resolve_poll_option(i) is None,
        i.text is None ==> resolve_ask(i) is None && resolve_comment(i) is None && resolve_poll(i)
            is None && resolve_poll_option(i) is None,
        i.title is None ==> resolve_story(i) is None && resolve_ask(i) is None && resolve_job(i)
            is None && resolve_poll(i) is None,
        i.url is None ==> resolve_story(i) is None && resolve_job(i) is None,
        i.parent is None ==> resolve_comment(i) is None,
        i.poll is None ==> resolve_poll_option(i) is None,
{
}

/// Resolution reads nothing but the record: two records that agree in every
/// field resolve to entities that agree in every field, of every kind.
pub proof fn resolution_is_repeatable(a: ItemView, b: ItemView)
    requires
        a == b,
    ensures
        resolve_story(a) == resolve_story(b),
        resolve_ask(a) == resolve_ask(b),
        resolve_comment(a) == resolve_comment(b),
        resolve_job(a) == resolve_job(b),
        resolve_poll(a) == resolve_poll(b),
        resolve_poll_option(a) == resolve_poll_option(b),
{
}

} // verus!
