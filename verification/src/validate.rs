//! The structural rules of a document. Every rule is checked; none stops the
//! others.

use crate::clock::now;
use crate::fingerprint::HASH_PREFIX;
use crate::ident::{parses_as_uuid, uuid_syntax};
use crate::model::{later, within_unit, Glyph, Relation, Timestamp, MAGIC, VERSION};
use crate::text::{same_text, starts_with, has_prefix, texts};
use vstd::prelude::*;

verus! {

/// The message of a rule, once if the rule is broken.
pub open spec fn rule(broken: bool, message: Seq<char>) -> Seq<Seq<char>> {
    if broken {
        seq![message]
    } else {
        Seq::empty()
    }
}

/// One message for each relation that has an empty target, in order.
pub open spec fn relation_violations(relations: Seq<Relation>) -> Seq<Seq<char>>
    decreases relations.len(),
{
    if relations.len() == 0 {
        Seq::empty()
    } else {
        relation_violations(relations.drop_last()) + rule(
            relations.last().target@.len() == 0,
            "Relation target cannot be empty"@,
        )
    }
}

/// The violations of a document, in the order of the rules. `in_future` says
/// whether the document was created after the moment of validation.
pub open spec fn violations(glyph: Glyph, in_future: bool) -> Seq<Seq<char>> {
    rule(glyph.header.magic@ != MAGIC@, "Invalid magic bytes"@)
    + rule(glyph.header.version@ != VERSION@, "Unsupported version"@)
    + rule(!uuid_syntax(glyph.header.id@), "Invalid UUID format"@)
    + rule(!has_prefix(glyph.header.hash@, HASH_PREFIX@), "Invalid hash format"@)
    + rule(glyph.payload.label@.len() == 0, "Label cannot be empty"@)
    + rule(
        !within_unit(glyph.payload.truth_mode.confidence.bits),
        "Confidence must be between 0.0 and 1.0"@,
    )
    + relation_violations(glyph.payload.relations@)
    + rule(in_future, "Created timestamp is in the future"@)
}

/// One if the condition holds, else zero.
pub open spec fn one_if(condition: bool) -> nat {
    if condition {
        1
    } else {
        0
    }
}

/// The number of relations that have an empty target.
pub open spec fn empty_targets(relations: Seq<Relation>) -> nat
    decreases relations.len(),
{
    if relations.len() == 0 {
        0
    } else {
        empty_targets(relations.drop_last()) + one_if(relations.last().target@.len() == 0)
    }
}

/// The number of rules that a document breaks, a relation with an empty
/// target counting once for itself.
pub open spec fn broken_rules(glyph: Glyph, in_future: bool) -> nat {
    one_if(glyph.header.magic@ != MAGIC@)
    + one_if(glyph.header.version@ != VERSION@)
    + one_if(!uuid_syntax(glyph.header.id@))
    + one_if(!has_prefix(glyph.header.hash@, HASH_PREFIX@))
    + one_if(glyph.payload.label@.len() == 0)
    + one_if(!within_unit(glyph.payload.truth_mode.confidence.bits))
    + empty_targets(glyph.payload.relations@)
    + one_if(in_future)
}

/// Whether a document keeps every rule.
pub open spec fn conforms(glyph: Glyph, in_future: bool) -> bool {
    &&& glyph.header.magic@ == MAGIC@
    &&& glyph.header.version@ == VERSION@
    &&& uuid_syntax(glyph.header.id@)
    &&& has_prefix(glyph.header.hash@, HASH_PREFIX@)
    &&& glyph.payload.label@.len() > 0
    &&& within_unit(glyph.payload.truth_mode.confidence.bits)
    &&& forall|i: int|
        0 <= i < glyph.payload.relations@.len() ==> (
        #[trigger] glyph.payload.relations@[i]).target@.len() > 0
    &&& !in_future
}

/// There is one message for each relation with an empty target.
pub proof fn lemma_relation_violations_counted(relations: Seq<Relation>)
    ensures
        relation_violations(relations).len() == empty_targets(relations),
    decreases relations.len(),
{
    if relations.len() > 0 {
        lemma_relation_violations_counted(relations.drop_last());
    }
}

/// Validation does not stop at the first broken rule: a document that breaks
/// several rules at once gets one message for each of them.
pub proof fn lemma_violations_counted(glyph: Glyph, in_future: bool)
    ensures
        violations(glyph, in_future).len() == broken_rules(glyph, in_future),
{
    lemma_relation_violations_counted(glyph.payload.relations@);
}

/// No relation has an empty target exactly when none is counted.
pub proof fn lemma_no_empty_target(relations: Seq<Relation>)
    ensures
        empty_targets(relations) == 0 <==> forall|i: int|
            0 <= i < relations.len() ==> (#[trigger] relations[i]).target@.len() > 0,
    decreases relations.len(),
{
    if relations.len() > 0 {
        let init = relations.drop_last();
        lemma_no_empty_target(init);
        if empty_targets(relations) == 0 {
            assert forall|i: int| 0 <= i < relations.len() implies (
            #[trigger] relations[i]).target@.len() > 0 by {
                if i < init.len() {
                    assert(init[i] == relations[i]);
                }
            }
        }
    }
}

/// A document has no violation exactly when it keeps every rule.
pub proof fn lemma_valid_iff_conforms(glyph: Glyph, in_future: bool)
    ensures
        violations(glyph, in_future).len() == 0 <==> conforms(glyph, in_future),
{
    lemma_violations_counted(glyph, in_future);
    lemma_no_empty_target(glyph.payload.relations@);
}

/// Adds the message to the list if the rule is broken.
fn note(errors: &mut Vec<String>, broken: bool, message: &str)
    ensures
        texts(final(errors)@) == texts(old(errors)@) + rule(broken, message@),
{
    if broken {
        errors.push(String::from_str(message));
    }
}

impl Glyph {
    /// Checks every rule against the clock's present reading.
    ///
    /// The result is that of `validate_at` for some instant: the messages of
    /// all broken rules, with or without the one on a creation time that lies
    /// in the future.
    pub fn validate(&self) -> (res: Result<(), Vec<String>>)
        ensures
            match res {
                Ok(_) => violations(*self, false).len() == 0,
                Err(errors) => {
                    ||| texts(errors@) == violations(*self, false) && errors@.len() > 0
                    ||| texts(errors@) == violations(*self, true)
                },
            },
    {
        let at = now();
        self.validate_at(&at)
    }

    /// Checks every rule, taking `at` as the present instant. Returns `Ok`
    /// exactly when no rule is broken, and else the messages of all broken
    /// rules in the order of the rules.
    pub fn validate_at(&self, at: &Timestamp) -> (res: Result<(), Vec<String>>)
        ensures
            res is Ok <==> violations(*self, later(self.header.created_at@, at@)).len() == 0,
            res matches Err(errors) ==> texts(errors@) == violations(
                *self,
                later(self.header.created_at@, at@),
            ),
    {
        let mut errors: Vec<String> = Vec::new();
        note(&mut errors, !same_text(self.header.magic.as_str(), MAGIC), "Invalid magic bytes");
        note(&mut errors, !same_text(self.header.version.as_str(), VERSION), "Unsupported version");
        note(&mut errors, !parses_as_uuid(self.header.id.as_str()), "Invalid UUID format");
        note(
            &mut errors,
            !starts_with(self.header.hash.as_str(), HASH_PREFIX),
            "Invalid hash format",
        );
        note(&mut errors, self.payload.label.as_str().is_empty(), "Label cannot be empty");
        note(
            &mut errors,
            !self.payload.truth_mode.confidence.is_within_unit(),
            "Confidence must be between 0.0 and 1.0",
        );
        let ghost head = texts(errors@);
        let mut i: usize = 0;
        while i < self.payload.relations.len()
            invariant
                i <= self.payload.relations.len(),
                texts(errors@) == head + relation_violations(
                    self.payload.relations@.take(i as int),
                ),
            decreases self.payload.relations.len() - i,
        {
            assert(self.payload.relations@.take(i + 1).drop_last()
                =~= self.payload.relations@.take(i as int));
            note(
                &mut errors,
                self.payload.relations[i].target.as_str().is_empty(),
                "Relation target cannot be empty",
            );
            i = i + 1;
        }
        assert(self.payload.relations@.take(i as int) =~= self.payload.relations@);
        note(&mut errors, self.header.created_at.is_after(at), "Created timestamp is in the future");
        if errors.len() == 0 {
            Ok(())
        } else {
            Err(errors)
        }
    }
}

} // verus!
