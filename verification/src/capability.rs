//! The capability accumulator: the grants that the next sign-in message will
//! delegate, in the order in which they were added.
//!
//! A grant is an action on a resource. The resource is named by a namespace
//! and a target within it; what makes a namespace and a target acceptable is
//! that the resource they name is a URI.
use crate::error::{ErrorKind, Failure, SessionError};
use crate::store::unit_result_view;
use crate::syntax::{check_json_object, check_uri, json_object_error, uri_error};
use crate::text::{ascii_len, byte_is_alphanumeric, is_alphanumeric, join2, join3, opt_view, texts_view};
use vstd::prelude::*;

verus! {

/// One delegated capability: an action on a target.
pub struct Grant {
    /// The namespace that the grant was added in.
    pub namespace: String,
    /// The resource that the grant reaches: the namespace, a colon, and the
    /// name of the target within the namespace, where `*` stands for every
    /// target.
    pub target: String,
    pub action: String,
    /// Further members for whoever checks the grant: the text of a JSON
    /// object.
    pub extra_fields: Option<String>,
}

/// The model of a grant.
pub struct GrantView {
    pub namespace: Seq<char>,
    pub target: Seq<char>,
    pub action: Seq<char>,
    pub extra_fields: Option<Seq<char>>,
}

impl View for Grant {
    type V = GrantView;

    open spec fn view(&self) -> GrantView {
        GrantView {
            namespace: self.namespace@,
            target: self.target@,
            action: self.action@,
            extra_fields: opt_view(self.extra_fields),
        }
    }
}

/// The models of the grants of a list, in its order.
pub open spec fn grants_view(grants: Seq<Grant>) -> Seq<GrantView> {
    Seq::new(grants.len(), |i: int| grants[i]@)
}

/// A character of an action: an ASCII letter or digit, or one of `-_.+*/`.
pub open spec fn is_action_char(c: char) -> bool {
    is_alphanumeric(c) || c == '-' || c == '_' || c == '.' || c == '+' || c == '*' || c == '/'
}

/// An action is one or more action characters, so that it stays one word in
/// the statement of the message.
pub open spec fn valid_action(text: Seq<char>) -> bool {
    &&& text.len() > 0
    &&& forall|i: int| 0 <= i < text.len() ==> is_action_char(#[trigger] text[i])
}

/// The name that stands for every target of a namespace.
pub open spec fn every_target() -> Seq<char> {
    "*"@
}

/// The resource that a grant in `namespace` on `target` reaches: the
/// namespace, a colon, and the target's name as it was given.
pub open spec fn resource_text(namespace: Seq<char>, target: Seq<char>) -> Seq<char> {
    namespace + ":"@ + target
}

/// Whether `i` is the place of the first action of the batch that is not
/// well formed.
pub open spec fn first_invalid_action_at(actions: Seq<Seq<char>>, i: int) -> bool {
    &&& 0 <= i < actions.len()
    &&& !valid_action(actions[i])
    &&& forall|j: int| 0 <= j < i ==> valid_action(#[trigger] actions[j])
}

/// Whether every action of the batch is well formed.
pub open spec fn all_actions_valid(actions: Seq<Seq<char>>) -> bool {
    forall|i: int| 0 <= i < actions.len() ==> valid_action(#[trigger] actions[i])
}

/// The first action of the batch that is not well formed, where there is one.
pub open spec fn first_invalid_action(actions: Seq<Seq<char>>) -> Seq<char> {
    actions[choose|i: int| first_invalid_action_at(actions, i)]
}

/// The failure for a namespace and target whose resource is no URI.
pub open spec fn invalid_resource(detail: Seq<char>) -> Failure {
    Failure { kind: ErrorKind::InvalidNamespace, detail: "Failed to parse URI: "@ + detail }
}

/// The failure for an action that is not well formed.
pub open spec fn invalid_action(action: Seq<char>) -> Failure {
    Failure { kind: ErrorKind::ActionEncoding, detail: "Failed to add action: "@ + action }
}

/// The failure for extra fields that are no JSON object.
pub open spec fn invalid_fields(detail: Seq<char>) -> Failure {
    Failure { kind: ErrorKind::Serialization, detail: "extra fields are not a JSON object: "@ + detail }
}

/// The failure for extra fields in a namespace that has no grant.
pub open spec fn no_grant_in(namespace: Seq<char>) -> Failure {
    Failure { kind: ErrorKind::InvalidNamespace, detail: "no grant in namespace: "@ + namespace }
}

/// What adding a batch returns. An empty batch is accepted as it is. Else the
/// resource must be a URI and every action well formed; the resource is
/// checked first, then the actions in their order, and the first thing found
/// wrong is reported.
pub open spec fn add_result(namespace: Seq<char>, target: Seq<char>, actions: Seq<Seq<char>>) -> Result<
    (),
    Failure,
> {
    if actions.len() == 0 {
        Ok(())
    } else if uri_error(resource_text(namespace, target)) is Some {
        Err(invalid_resource(uri_error(resource_text(namespace, target))->Some_0))
    } else if !all_actions_valid(actions) {
        Err(invalid_action(first_invalid_action(actions)))
    } else {
        Ok(())
    }
}

/// The grants of a batch: one for each action, in the batch's order, each on
/// the resource of the namespace and target, none with extra fields.
pub open spec fn batch(namespace: Seq<char>, target: Seq<char>, actions: Seq<Seq<char>>) -> Seq<GrantView> {
    Seq::new(
        actions.len(),
        |i: int|
            GrantView {
                namespace,
                target: resource_text(namespace, target),
                action: actions[i],
                extra_fields: None,
            },
    )
}

/// The grants after adding a batch: all of the batch behind those that were
/// there, or, where adding failed, those that were there and no other.
pub open spec fn add_state(
    grants: Seq<GrantView>,
    namespace: Seq<char>,
    target: Seq<char>,
    actions: Seq<Seq<char>>,
) -> Seq<GrantView> {
    if add_result(namespace, target, actions) is Ok {
        grants + batch(namespace, target, actions)
    } else {
        grants
    }
}

/// Whether `i` is the place of the last grant in `namespace`.
pub open spec fn last_grant_in(grants: Seq<GrantView>, namespace: Seq<char>, i: int) -> bool {
    &&& 0 <= i < grants.len()
    &&& grants[i].namespace == namespace
    &&& forall|j: int| i < j < grants.len() ==> (#[trigger] grants[j]).namespace != namespace
}

/// Whether some grant is in `namespace`.
pub open spec fn has_grant_in(grants: Seq<GrantView>, namespace: Seq<char>) -> bool {
    exists|i: int| 0 <= i < grants.len() && (#[trigger] grants[i]).namespace == namespace
}

/// What attaching extra fields returns.
pub open spec fn extra_fields_result(grants: Seq<GrantView>, namespace: Seq<char>, fields: Seq<char>) -> Result<
    (),
    Failure,
> {
    if json_object_error(fields) is Some {
        Err(invalid_fields(json_object_error(fields)->Some_0))
    } else if !has_grant_in(grants, namespace) {
        Err(no_grant_in(namespace))
    } else {
        Ok(())
    }
}

/// The grants after attaching extra fields: the last grant in the namespace
/// carries them, in place of what it carried; nothing else changes.
pub open spec fn extra_fields_state(grants: Seq<GrantView>, namespace: Seq<char>, fields: Seq<char>) -> Seq<
    GrantView,
> {
    if extra_fields_result(grants, namespace, fields) is Ok {
        let i = choose|i: int| last_grant_in(grants, namespace, i);
        grants.update(i, GrantView { extra_fields: Some(fields), ..grants[i] })
    } else {
        grants
    }
}

/// Whether the text is a well-formed action.
pub fn is_valid_action(text: &str) -> (ok: bool)
    ensures
        ok == valid_action(text@),
{
    if !text.is_ascii() {
        assert(!valid_action(text@)) by {
            let i = choose|i: int| 0 <= i < text@.len() && !('\0' <= #[trigger] text@[i] <= '\u{7f}');
            assert(!is_action_char(text@[i]));
        }
        return false;
    }
    let n = ascii_len(text);
    let mut i: usize = 0;
    while i < n
        invariant
            text.is_ascii(),
            n == text@.len(),
            i <= n,
            forall|j: int| 0 <= j < i ==> is_action_char(#[trigger] text@[j]),
        decreases n - i,
    {
        let b = text.get_ascii(i);
        let ok = byte_is_alphanumeric(b) || b == 45 || b == 95 || b == 46 || b == 43 || b == 42 || b == 47;
        if !ok {
            assert(!is_action_char(text@[i as int]));
            return false;
        }
        i += 1;
    }
    n > 0
}

/// The first action of the batch that is not well formed, if there is one.
fn find_invalid_action(actions: &Vec<String>) -> (at: Option<usize>)
    ensures
        match at {
            Some(i) => first_invalid_action_at(texts_view(actions@), i as int),
            None => all_actions_valid(texts_view(actions@)),
        },
{
    let mut i: usize = 0;
    while i < actions.len()
        invariant
            i <= actions@.len(),
            forall|j: int| 0 <= j < i ==> valid_action(#[trigger] texts_view(actions@)[j]),
        decreases actions@.len() - i,
    {
        if !is_valid_action(actions[i].as_str()) {
            return Some(i);
        }
        i += 1;
    }
    None
}

/// The grants that a message is to delegate. They are added in batches; a
/// batch is added whole or not at all.
pub struct CapabilityAccumulator {
    grants: Vec<Grant>,
}

impl CapabilityAccumulator {
    /// The grants, in the order in which they were added.
    pub closed spec fn view(&self) -> Seq<GrantView> {
        grants_view(self.grants@)
    }

    /// An accumulator without grants.
    pub fn new() -> (acc: CapabilityAccumulator)
        ensures
            acc@ == Seq::<GrantView>::empty(),
    {
        let acc = CapabilityAccumulator { grants: Vec::new() };
        assert(acc@ =~= Seq::<GrantView>::empty());
        acc
    }

    /// Drops every grant.
    pub fn reset(&mut self)
        ensures
            final(self)@ == Seq::<GrantView>::empty(),
    {
        self.grants = Vec::new();
        assert(self@ =~= Seq::<GrantView>::empty());
    }

    /// The grants as they stand, for whoever builds the message.
    pub fn snapshot(&self) -> (grants: &Vec<Grant>)
        ensures
            grants_view(grants@) == self@,
    {
        &self.grants
    }

    fn add(&mut self, namespace: &str, target: &str, actions: &Vec<String>) -> (r: Result<(), SessionError>)
        ensures
            unit_result_view(r) == add_result(namespace@, target@, texts_view(actions@)),
            final(self)@ == add_state(old(self)@, namespace@, target@, texts_view(actions@)),
    {
        let ghost batch_actions = texts_view(actions@);
        if actions.len() == 0 {
            assert(batch(namespace@, target@, batch_actions) =~= Seq::<GrantView>::empty());
            assert(self@ + batch(namespace@, target@, batch_actions) =~= self@);
            return Ok(());
        }
        let resource = join3(namespace, ":", target);
        match check_uri(resource.as_str()) {
            Some(detail) => {
                return Err(
                    SessionError::new(
                        ErrorKind::InvalidNamespace,
                        join2("Failed to parse URI: ", detail.as_str()),
                    ),
                );
            },
            None => {},
        }
        match find_invalid_action(actions) {
            Some(i) => {
                proof {
                    let chosen = choose|j: int| first_invalid_action_at(batch_actions, j);
                    assert(first_invalid_action_at(batch_actions, chosen));
                    assert(chosen == i);
                }
                return Err(
                    SessionError::new(
                        ErrorKind::ActionEncoding,
                        join2("Failed to add action: ", actions[i].as_str()),
                    ),
                );
            },
            None => {},
        }
        let ghost added = batch(namespace@, target@, batch_actions);
        let mut i: usize = 0;
        while i < actions.len()
            invariant
                i <= actions@.len(),
                batch_actions == texts_view(actions@),
                added == batch(namespace@, target@, batch_actions),
                resource@ == resource_text(namespace@, target@),
                self@ =~= old(self)@ + added.take(i as int),
            decreases actions@.len() - i,
        {
            let ghost before = self@;
            let grant = Grant {
                namespace: String::from_str(namespace),
                target: resource.clone(),
                action: actions[i].clone(),
                extra_fields: None,
            };
            self.grants.push(grant);
            proof {
                assert(grant@ == added[i as int]);
                assert(self@ =~= before.push(grant@));
                assert(added.take(i as int + 1) =~= added.take(i as int).push(added[i as int]));
            }
            i += 1;
        }
        assert(added.take(i as int) =~= added);
        Ok(())
    }

    /// Grants each action of the batch on every target of the namespace:
    /// as `with_targeted_actions` on the target `*`.
    pub fn with_default_actions(&mut self, namespace: &str, actions: &Vec<String>) -> (r: Result<
        (),
        SessionError,
    >)
        ensures
            unit_result_view(r) == add_result(namespace@, every_target(), texts_view(actions@)),
            final(self)@ == add_state(old(self)@, namespace@, every_target(), texts_view(actions@)),
    {
        self.add(namespace, "*", actions)
    }

    /// Grants each action of the batch on the one target of the namespace,
    /// named as it is given.
    pub fn with_targeted_actions(&mut self, namespace: &str, target: &str, actions: &Vec<String>) -> (r:
        Result<(), SessionError>)
        ensures
            unit_result_view(r) == add_result(namespace@, target@, texts_view(actions@)),
            final(self)@ == add_state(old(self)@, namespace@, target@, texts_view(actions@)),
    {
        self.add(namespace, target, actions)
    }

    /// The place of the last grant in the namespace, if it has one.
    fn last_in(&self, namespace: &String) -> (at: Option<usize>)
        ensures
            match at {
                Some(i) => last_grant_in(self@, namespace@, i as int),
                None => !has_grant_in(self@, namespace@),
            },
    {
        let mut i: usize = self.grants.len();
        while i > 0
            invariant
                i <= self.grants@.len(),
                forall|j: int| i <= j < self.grants@.len() ==> (#[trigger] self@[j]).namespace != namespace@,
            decreases i,
        {
            i -= 1;
            if self.grants[i].namespace == *namespace {
                assert(self@[i as int].namespace == namespace@);
                return Some(i);
            }
        }
        None
    }

    /// Attaches extra fields, the text of a JSON object, to the last grant
    /// that was added in the namespace.
    pub fn with_extra_fields(&mut self, namespace: &str, fields: &str) -> (r: Result<(), SessionError>)
        ensures
            unit_result_view(r) == extra_fields_result(old(self)@, namespace@, fields@),
            final(self)@ == extra_fields_state(old(self)@, namespace@, fields@),
    {
        match check_json_object(fields) {
            Some(detail) => {
                return Err(
                    SessionError::new(
                        ErrorKind::Serialization,
                        join2("extra fields are not a JSON object: ", detail.as_str()),
                    ),
                );
            },
            None => {},
        }
        let name = String::from_str(namespace);
        match self.last_in(&name) {
            Some(i) => {
                let ghost before = self@;
                proof {
                    let chosen = choose|j: int| last_grant_in(before, namespace@, j);
                    assert(last_grant_in(before, namespace@, chosen));
                    assert(chosen == i);
                }
                let grant = Grant {
                    namespace: name,
                    target: self.grants[i].target.clone(),
                    action: self.grants[i].action.clone(),
                    extra_fields: Some(String::from_str(fields)),
                };
                self.grants.set(i, grant);
                assert(self@ =~= before.update(
                    i as int,
                    GrantView { extra_fields: Some(fields@), ..before[i as int] },
                ));
                Ok(())
            },
            None => Err(
                SessionError::new(ErrorKind::InvalidNamespace, join2("no grant in namespace: ", namespace)),
            ),
        }
    }
}

} // verus!
