//! The delegations of a message, as the `siwe-recap` crate encodes them. Its
//! `Builder` collects, for each of its namespaces, the actions granted on
//! every target, the actions granted on single targets, and extra fields; it
//! then writes them into a sign-in message.
//!
//! The grants of this library reach resources that are URIs of any scheme,
//! while the builder's namespaces are plain words. So every grant is handed
//! to the builder under one namespace, `capability`, as an action on the
//! grant's resource. The extra fields of the grants are handed over as one
//! member, `fields`: a JSON array with one place for each grant, in the
//! grants' order, that holds the grant's extra fields or `null`. The builder
//! keeps extra fields in a hash map; with one member there is one order.
use crate::capability::{grants_view, Grant, GrantView};
use crate::syntax::{authority_error, timestamp_error, uri_error};
use crate::text::{is_alphanumeric, opt_view, texts_view};
use siwe::{Message, Version};
use siwe_recap::{Builder, Namespace};
use std::collections::HashMap;
use vstd::prelude::*;

verus! {

#[verifier::external_type_specification]
#[verifier::external_body]
pub struct ExBuilder(Builder);

/// The actions that a builder grants on every target, by namespace, in the
/// order in which they were first added. Every namespace that the builder
/// knows has an entry, be it empty.
pub uninterp spec fn recap_default_actions(builder: Builder) -> Map<Seq<char>, Seq<Seq<char>>>;

/// The actions that a builder grants on single targets, by namespace and
/// target, in the order in which they were first added.
pub uninterp spec fn recap_targeted_actions(builder: Builder) -> Map<(Seq<char>, Seq<char>), Seq<Seq<char>>>;

/// The extra fields that a builder holds, by namespace and member name: the
/// JSON text of each member's value.
pub uninterp spec fn recap_extra_fields(builder: Builder) -> Map<(Seq<char>, Seq<char>), Seq<char>>;

/// What `serde_json` reads from a text that is to be a JSON value: the value,
/// as the JSON text that `serde_json` writes for it, or the text of the
/// parser's error.
pub uninterp spec fn json_value(text: Seq<char>) -> Result<Seq<char>, Seq<char>>;

/// The text of the sign-in message that `siwe` writes for the fields, once
/// `siwe-recap` has put the delegations into its statement and resources;
/// none where a field is not what its type asks for, or where the
/// delegations cannot be encoded. It is the text only where no namespace has
/// more than one extra field: the encoding lists the extra fields of a
/// namespace in no fixed order.
pub uninterp spec fn recap_message_text(
    default_actions: Map<Seq<char>, Seq<Seq<char>>>,
    targeted_actions: Map<(Seq<char>, Seq<char>), Seq<Seq<char>>>,
    extra_fields: Map<(Seq<char>, Seq<char>), Seq<char>>,
    domain: Seq<char>,
    address: Seq<u8>,
    statement: Option<Seq<char>>,
    uri: Seq<char>,
    chain_id: u64,
    nonce: Seq<char>,
    issued_at: Seq<char>,
    expiration_time: Option<Seq<char>>,
    not_before: Option<Seq<char>>,
    request_id: Option<Seq<char>>,
    resources: Seq<Seq<char>>,
) -> Option<Seq<char>>;

/// A namespace of the builder is one or more runs of ASCII letters and
/// digits, with a single hyphen between two runs.
pub open spec fn valid_namespace(text: Seq<char>) -> bool {
    &&& text.len() > 0
    &&& forall|i: int| 0 <= i < text.len() ==> is_alphanumeric(#[trigger] text[i]) || text[i] == '-'
    &&& text[0] != '-'
    &&& text[text.len() - 1] != '-'
    &&& forall|i: int| 0 <= i < text.len() - 1 && #[trigger] text[i] == '-' ==> text[i + 1] != '-'
}

/// Whether no namespace has more than one extra field.
pub open spec fn one_field_per_namespace(extra_fields: Map<(Seq<char>, Seq<char>), Seq<char>>) -> bool {
    forall|a: (Seq<char>, Seq<char>), b: (Seq<char>, Seq<char>)|
        extra_fields.dom().contains(a) && extra_fields.dom().contains(b) && a.0 == b.0 ==> a == b
}

/// The fields of a sign-in message, each as plain text or number.
pub struct SiweFields {
    pub domain: String,
    pub address: [u8; 20],
    pub statement: Option<String>,
    pub uri: String,
    pub chain_id: u64,
    pub nonce: String,
    pub issued_at: String,
    pub expiration_time: Option<String>,
    pub not_before: Option<String>,
    pub request_id: Option<String>,
    pub resources: Vec<String>,
}

/// What a builder holds.
pub ghost struct Delegations {
    pub default_actions: Map<Seq<char>, Seq<Seq<char>>>,
    pub targeted_actions: Map<(Seq<char>, Seq<char>), Seq<Seq<char>>>,
    pub extra_fields: Map<(Seq<char>, Seq<char>), Seq<char>>,
}

/// What the builder holds.
pub open spec fn delegations_of(builder: Builder) -> Delegations {
    Delegations {
        default_actions: recap_default_actions(builder),
        targeted_actions: recap_targeted_actions(builder),
        extra_fields: recap_extra_fields(builder),
    }
}

/// What a new builder holds: nothing.
pub open spec fn no_delegations() -> Delegations {
    Delegations { default_actions: Map::empty(), targeted_actions: Map::empty(), extra_fields: Map::empty() }
}

/// The actions with `action` behind them, unless it is among them already.
pub open spec fn with_action(actions: Seq<Seq<char>>, action: Seq<char>) -> Seq<Seq<char>> {
    if actions.contains(action) {
        actions
    } else {
        actions.push(action)
    }
}

/// The default actions with an entry for the namespace, empty where it had
/// none.
pub open spec fn with_namespace(default_actions: Map<Seq<char>, Seq<Seq<char>>>, namespace: Seq<char>) -> Map<
    Seq<char>,
    Seq<Seq<char>>,
> {
    if default_actions.dom().contains(namespace) {
        default_actions
    } else {
        default_actions.insert(namespace, Seq::empty())
    }
}

/// What is held once `action` is granted on the one target in the namespace.
pub open spec fn with_targeted_action(
    held: Delegations,
    namespace: Seq<char>,
    target: Seq<char>,
    action: Seq<char>,
) -> Delegations {
    let granted = if held.targeted_actions.dom().contains((namespace, target)) {
        with_action(held.targeted_actions[(namespace, target)], action)
    } else {
        seq![action]
    };
    Delegations {
        default_actions: with_namespace(held.default_actions, namespace),
        targeted_actions: held.targeted_actions.insert((namespace, target), granted),
        ..held
    }
}

/// What is held once the namespace has the extra field `name` with the given
/// value, in place of an earlier field of that name.
pub open spec fn with_extra_member(
    held: Delegations,
    namespace: Seq<char>,
    name: Seq<char>,
    value: Seq<char>,
) -> Delegations {
    Delegations {
        default_actions: with_namespace(held.default_actions, namespace),
        extra_fields: held.extra_fields.insert((namespace, name), value),
        ..held
    }
}

/// `Builder::new` of `siwe-recap`: a builder that holds nothing.
#[verifier::external_body]
pub(crate) fn new_builder() -> (builder: Builder)
    ensures
        delegations_of(builder) == no_delegations(),
{
    Builder::new()
}

/// `Builder::with_action` of `siwe-recap`, in the namespace that
/// `Namespace::from_str` makes of the text: none where the text is no
/// namespace.
#[verifier::external_body]
pub(crate) fn add_targeted_action(builder: Builder, namespace: &str, target: &str, action: &str) -> (out: Option<
    Builder,
>)
    ensures
        out is Some == valid_namespace(namespace@),
        out matches Some(b) ==> delegations_of(b) == with_targeted_action(
            delegations_of(builder),
            namespace@,
            target@,
            action@,
        ),
{
    let namespace: Namespace = namespace.parse().ok()?;
    Some(builder.with_action(&namespace, target, action))
}

/// `Builder::with_extra_fields` of `siwe-recap`, in the namespace that
/// `Namespace::from_str` makes of the text, with one field: its name is
/// `name`, its value what `serde_json::from_str` reads from `value`. None
/// where the text is no namespace or the value is no JSON.
#[verifier::external_body]
pub(crate) fn add_extra_member(builder: Builder, namespace: &str, name: &str, value: &str) -> (out: Option<
    Builder,
>)
    ensures
        out is Some == (valid_namespace(namespace@) && json_value(value@) is Ok),
        out matches Some(b) ==> delegations_of(b) == with_extra_member(
            delegations_of(builder),
            namespace@,
            name@,
            json_value(value@)->Ok_0,
        ),
{
    let namespace: Namespace = namespace.parse().ok()?;
    let value: serde_json::Value = serde_json::from_str(value).ok()?;
    Some(builder.with_extra_fields(&namespace, HashMap::from([(name.to_string(), value)])))
}

/// `Builder::build` of `siwe-recap` on the message with these fields, then
/// `Display` of `siwe::Message`. The builder keeps the extra fields of a
/// namespace in a hash map and encodes them in the order in which the map
/// hands them out, so the text is claimed only where no namespace has more
/// than one. A text comes back only where the parsers of the fields take
/// them.
#[verifier::external_body]
pub(crate) fn render_message(builder: &Builder, m: SiweFields) -> (text: Option<String>)
    ensures
        one_field_per_namespace(recap_extra_fields(*builder)) ==> opt_view(text) == recap_message_text(
            recap_default_actions(*builder),
            recap_targeted_actions(*builder),
            recap_extra_fields(*builder),
            m.domain@,
            m.address@,
            opt_view(m.statement),
            m.uri@,
            m.chain_id,
            m.nonce@,
            m.issued_at@,
            opt_view(m.expiration_time),
            opt_view(m.not_before),
            opt_view(m.request_id),
            texts_view(m.resources@),
        ),
        text is Some ==> uri_error(m.uri@) is None && authority_error(m.domain@) is None && timestamp_error(
            m.issued_at@,
        ) is None,
        text is Some ==> (m.expiration_time matches Some(t) ==> timestamp_error(t@) is None) && (
        m.not_before matches Some(t) ==> timestamp_error(t@) is None),
        text is Some ==> forall|i: int|
            0 <= i < m.resources@.len() ==> uri_error(#[trigger] texts_view(m.resources@)[i]) is None,
{
    let stamp = |t: Option<String>| t.map(|s| s.parse()).transpose().ok();
    let message = Message {
        domain: m.domain.parse().ok()?, address: m.address, statement: m.statement,
        uri: m.uri.parse().ok()?, version: Version::V1, chain_id: m.chain_id, nonce: m.nonce,
        issued_at: m.issued_at.parse().ok()?,
        expiration_time: stamp(m.expiration_time)?, not_before: stamp(m.not_before)?,
        request_id: m.request_id,
        resources: m.resources.iter().map(|r| r.parse().ok()).collect::<Option<_>>()?,
    };
    Some(builder.build(message).ok()?.to_string())
}

/// The namespace under which the builder takes every grant.
pub open spec fn encoder_namespace() -> Seq<char> {
    "capability"@
}

/// The name of the one extra field that the builder is given.
pub open spec fn fields_member() -> Seq<char> {
    "fields"@
}

/// What is held once the actions of the grants were added in their order,
/// each on its grant's resource.
pub open spec fn granted_actions(grants: Seq<GrantView>) -> Delegations
    decreases grants.len(),
{
    if grants.len() == 0 {
        no_delegations()
    } else {
        with_targeted_action(
            granted_actions(grants.drop_last()),
            encoder_namespace(),
            grants.last().target,
            grants.last().action,
        )
    }
}

/// Whether some grant has extra fields.
pub open spec fn has_extra_fields(grants: Seq<GrantView>) -> bool {
    exists|i: int| 0 <= i < grants.len() && (#[trigger] grants[i]).extra_fields is Some
}

/// What stands for a grant in the array of extra fields: its extra fields,
/// or `null`.
pub open spec fn fields_item(grant: GrantView) -> Seq<char> {
    match grant.extra_fields {
        Some(fields) => fields,
        None => "null"@,
    }
}

/// The items of the grants, in their order, with a comma between two.
pub open spec fn fields_items(grants: Seq<GrantView>) -> Seq<char>
    decreases grants.len(),
{
    if grants.len() == 0 {
        Seq::empty()
    } else if grants.len() == 1 {
        fields_item(grants[0])
    } else {
        fields_items(grants.drop_last()) + ","@ + fields_item(grants.last())
    }
}

/// The text of the array of extra fields: one item for each grant.
pub open spec fn fields_array(grants: Seq<GrantView>) -> Seq<char> {
    "["@ + fields_items(grants) + "]"@
}

/// What a builder holds once it was given the grants: their actions, and,
/// where a grant has extra fields, the array of extra fields as its one
/// extra field. None where the array is no JSON, which is so only where the
/// extra fields of some grant are none.
pub open spec fn delegated(grants: Seq<GrantView>) -> Option<Delegations> {
    if !has_extra_fields(grants) {
        Some(granted_actions(grants))
    } else {
        match json_value(fields_array(grants)) {
            Ok(value) => Some(
                with_extra_member(granted_actions(grants), encoder_namespace(), fields_member(), value),
            ),
            Err(_) => None,
        }
    }
}

/// The namespace under which the builder takes every grant is one of its
/// namespaces.
proof fn lemma_encoder_namespace_is_valid()
    ensures
        valid_namespace(encoder_namespace()),
{
    reveal_strlit("capability");
    let text = "capability"@;
    assert(text.len() == 10);
    assert forall|i: int| 0 <= i < text.len() implies is_alphanumeric(#[trigger] text[i]) by {
        assert(text[0] == 'c' && text[1] == 'a' && text[2] == 'p' && text[3] == 'a' && text[4] == 'b');
        assert(text[5] == 'i' && text[6] == 'l' && text[7] == 'i' && text[8] == 't' && text[9] == 'y');
    }
}

/// The actions of the grants leave the extra fields empty.
proof fn lemma_actions_have_no_fields(grants: Seq<GrantView>)
    ensures
        granted_actions(grants).extra_fields == Map::<(Seq<char>, Seq<char>), Seq<char>>::empty(),
    decreases grants.len(),
{
    if grants.len() > 0 {
        lemma_actions_have_no_fields(grants.drop_last());
    }
}

/// What the builder holds of the grants has at most one extra field.
pub proof fn lemma_one_extra_field(grants: Seq<GrantView>)
    ensures
        delegated(grants) matches Some(held) ==> one_field_per_namespace(held.extra_fields),
{
    lemma_actions_have_no_fields(grants);
}

/// A builder that holds the grants; none where their extra fields make no
/// JSON.
pub fn encode_grants(grants: &Vec<Grant>) -> (out: Option<Builder>)
    ensures
        out is Some == delegated(grants_view(grants@)) is Some,
        out matches Some(b) ==> Some(delegations_of(b)) == delegated(grants_view(grants@)),
{
    let ghost all = grants_view(grants@);
    proof {
        lemma_encoder_namespace_is_valid();
    }
    let mut builder = new_builder();
    let mut items = String::from_str("[");
    let mut any = false;
    let mut i: usize = 0;
    while i < grants.len()
        invariant
            i <= grants@.len(),
            all == grants_view(grants@),
            valid_namespace(encoder_namespace()),
            delegations_of(builder) == granted_actions(all.take(i as int)),
            items@ == "["@ + fields_items(all.take(i as int)),
            any == has_extra_fields(all.take(i as int)),
        decreases grants@.len() - i,
    {
        let ghost before = all.take(i as int);
        let ghost now = all.take(i as int + 1);
        proof {
            assert(now.drop_last() =~= before);
            assert(now.last() == grants@[i as int]@);
        }
        let grant = &grants[i];
        match add_targeted_action(builder, "capability", grant.target.as_str(), grant.action.as_str()) {
            Some(b) => {
                builder = b;
            },
            None => {
                return None;
            },
        }
        if i > 0 {
            items.append(",");
        }
        match &grant.extra_fields {
            Some(fields) => {
                items.append(fields.as_str());
                any = true;
            },
            None => {
                items.append("null");
            },
        }
        proof {
            if i == 0 {
                assert(before =~= Seq::<GrantView>::empty());
                assert(fields_items(before) =~= Seq::<char>::empty());
                assert(now[0] == now.last());
                assert(items@ =~= "["@ + fields_items(now));
            } else {
                assert(items@ =~= "["@ + fields_items(now));
            }
            assert(has_extra_fields(now) == (has_extra_fields(before) || now.last().extra_fields is Some)) by {
                if has_extra_fields(before) {
                    let j = choose|j: int| 0 <= j < before.len() && (#[trigger] before[j]).extra_fields is Some;
                    assert(now[j] == before[j]);
                }
                if now.last().extra_fields is Some {
                    assert(now[now.len() - 1].extra_fields is Some);
                }
                if has_extra_fields(now) {
                    let j = choose|j: int| 0 <= j < now.len() && (#[trigger] now[j]).extra_fields is Some;
                    if j < before.len() {
                        assert(before[j] == now[j]);
                    }
                }
            }
        }
        i += 1;
    }
    assert(all.take(i as int) =~= all);
    if !any {
        return Some(builder);
    }
    items.append("]");
    assert(items@ =~= fields_array(all));
    add_extra_member(builder, "capability", "fields", items.as_str())
}

} // verus!
