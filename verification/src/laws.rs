//! What holds of the library whatever it is given: each law is proved from
//! the models that the functions' contracts speak of.
use crate::capability::{add_result, add_state, batch, every_target, resource_text, GrantView};
use crate::encoding::{address_result, all_hex_digits, hex_decoded, hex_digit_value};
use crate::error::{ErrorKind, Failure};
use crate::key_exchange::{described_view, encoded_export, encoded_key_failure, encoded_text};
use crate::key_material::KeyView;
use crate::manager::{built_with, did_result, initial_keys, is_generated_key, jwk_text};
use crate::message::SiweConfigView;
use crate::syntax::uri_error;
use crate::store::{attach_pending, attach_result, attach_state, attach_target, create_result, create_state};
use crate::store::{default_key_id, import_pending, pending_apart, rename_pending, PendingMap};
use crate::store::{duplicate_key, export_result, fresh_info, import_result, import_state, missing_key_id};
use crate::store::rename_result;
use crate::store::{labels_synchronized, rename_state, renamed_info, resolve_key_id, KeyMap, SessionView};
use vstd::prelude::*;
use vstd::utf8::{encode_utf8, is_ascii_chars, is_ascii_chars_encode_utf8};

verus! {

/// Every key that the store holds is labelled with the id it is held under:
/// the store of a new manager is so, and what import, creation, rename and
/// attachment make of such a store is so again.
pub proof fn law_labels_stay_synchronized(
    keys: KeyMap,
    key: KeyView,
    key_id: Option<Seq<char>>,
    allow_override: bool,
    old_id: Seq<char>,
    new_id: Seq<char>,
    session: SessionView,
)
    requires
        labels_synchronized(keys),
    ensures
        labels_synchronized(initial_keys(key)),
        labels_synchronized(import_state(keys, key, key_id, allow_override)),
        labels_synchronized(create_state(keys, key, key_id)),
        labels_synchronized(rename_state(keys, old_id, new_id)),
        labels_synchronized(attach_state(keys, key_id, session)),
{
}

/// A new manager holds exactly one entry, under the default id: its key,
/// without a session.
pub proof fn law_new_store_holds_only_the_default_key(key: KeyView)
    ensures
        initial_keys(key).dom() == Set::<Seq<char>>::empty().insert(default_key_id()),
        initial_keys(key)[default_key_id()] == fresh_info(key, default_key_id()),
{
    assert(initial_keys(key).dom() =~= Set::<Seq<char>>::empty().insert(default_key_id()));
}

/// A new manager can name the identity of its default key.
pub proof fn law_new_manager_has_an_identity(key: KeyView)
    requires
        is_generated_key(key),
    ensures
        did_result(initial_keys(key), None) is Ok,
        export_result(initial_keys(key), None) == Ok::<KeyView, Failure>(key.labelled(default_key_id())),
{
}

/// Creating a key under an id and then another under the same id fails the
/// second time with `DuplicateKey`, and the failed call changes nothing.
pub proof fn law_second_create_is_refused(keys: KeyMap, first: KeyView, second: KeyView, key_id: Option<Seq<char>>)
    ensures
        create_result(create_state(keys, first, key_id), key_id) == Err::<Seq<char>, Failure>(
            duplicate_key(resolve_key_id(key_id)),
        ),
        create_state(create_state(keys, first, key_id), second, key_id) == create_state(keys, first, key_id),
        create_state(create_state(keys, first, key_id), second, key_id).dom() == create_state(
            keys,
            first,
            key_id,
        ).dom(),
{
}

/// After an import under an id, whatever came of it, a second import under
/// that id fails without override and changes nothing; with override it
/// succeeds, and the id then holds the second key and no session.
pub proof fn law_second_import_needs_override(
    keys: KeyMap,
    first: KeyView,
    second: KeyView,
    key_id: Option<Seq<char>>,
    first_override: bool,
)
    ensures
        ({
            let held = import_state(keys, first, key_id, first_override);
            let id = resolve_key_id(key_id);
            &&& import_result(held, key_id, false) == Err::<Seq<char>, Failure>(duplicate_key(id))
            &&& import_state(held, second, key_id, false) == held
            &&& import_result(held, key_id, true) == Ok::<Seq<char>, Failure>(id)
            &&& import_state(held, second, key_id, true).dom() == held.dom()
            &&& import_state(held, second, key_id, true)[id] == fresh_info(second, id)
            &&& forall|other: Seq<char>|
                other != id && held.dom().contains(other) ==> import_state(held, second, key_id, true)[other]
                    == #[trigger] held[other]
        }),
{
    let held = import_state(keys, first, key_id, first_override);
    let id = resolve_key_id(key_id);
    assert(held.dom().contains(id));
    assert(import_state(held, second, key_id, true).dom() =~= held.dom());
}

/// A rename that succeeds leaves the new id held and the old one not, and
/// what was under the old id is under the new one; every other id keeps what
/// it held.
pub proof fn law_rename_moves_the_entry(keys: KeyMap, old_id: Seq<char>, new_id: Seq<char>)
    requires
        rename_result(keys, old_id, new_id) is Ok,
    ensures
        rename_state(keys, old_id, new_id).dom().contains(new_id),
        !rename_state(keys, old_id, new_id).dom().contains(old_id),
        rename_state(keys, old_id, new_id)[new_id] == renamed_info(keys[old_id], new_id),
        rename_state(keys, old_id, new_id)[new_id].session == keys[old_id].session,
        forall|other: Seq<char>|
            other != old_id && other != new_id ==> (rename_state(keys, old_id, new_id).dom().contains(other)
                <==> #[trigger] keys.dom().contains(other)),
        forall|other: Seq<char>|
            other != old_id && other != new_id && keys.dom().contains(other) ==> rename_state(
                keys,
                old_id,
                new_id,
            )[other] == #[trigger] keys[other],
{
}

/// A rename of an id that is not held, or to an id that is held, fails and
/// changes nothing.
pub proof fn law_failed_rename_changes_nothing(keys: KeyMap, old_id: Seq<char>, new_id: Seq<char>)
    ensures
        !keys.dom().contains(old_id) ==> rename_result(keys, old_id, new_id) is Err && rename_result(
            keys,
            old_id,
            new_id,
        )->Err_0.kind == ErrorKind::KeyNotFound,
        keys.dom().contains(old_id) && keys.dom().contains(new_id) ==> rename_result(keys, old_id, new_id) is Err
            && rename_result(keys, old_id, new_id)->Err_0.kind == ErrorKind::DuplicateKey,
        rename_result(keys, old_id, new_id) is Err ==> rename_state(keys, old_id, new_id) == keys,
{
}

/// A key that is exported and then imported under another id is held there
/// with the material that it was exported with, labelled with the id it is
/// now held under; the id it came from still holds it where the two ids
/// differ.
pub proof fn law_export_then_import_keeps_the_key(
    keys: KeyMap,
    from: Option<Seq<char>>,
    to: Option<Seq<char>>,
    allow_override: bool,
)
    requires
        export_result(keys, from) is Ok,
        import_result(keys, to, allow_override) is Ok,
    ensures
        ({
            let key = export_result(keys, from)->Ok_0;
            let held = import_state(keys, key, to, allow_override);
            &&& export_result(held, to) == Ok::<KeyView, Failure>(key.labelled(resolve_key_id(to)))
            &&& export_result(held, to)->Ok_0.material == key.material
            &&& resolve_key_id(from) != resolve_key_id(to) ==> export_result(held, from) == Ok::<
                KeyView,
                Failure,
            >(key)
        }),
{
}

/// A key that is exported and then imported under another id has there the
/// identifier that it has where it came from.
pub proof fn law_copy_has_the_same_identity(
    keys: KeyMap,
    from: Option<Seq<char>>,
    to: Option<Seq<char>>,
    allow_override: bool,
)
    requires
        export_result(keys, from) is Ok,
        import_result(keys, to, allow_override) is Ok,
    ensures
        did_result(import_state(keys, export_result(keys, from)->Ok_0, to, allow_override), to) == did_result(
            keys,
            from,
        ),
{
}

/// A key that is exported as base64 and imported from that text under
/// another id is held there with the material it was exported with, and the
/// id it came from still holds it. This is so where the exported text reads
/// back as a key of the material that was written, which is for the encoders
/// to keep.
pub proof fn law_exported_text_imports_the_key(
    keys: KeyMap,
    from: Option<Seq<char>>,
    to: Option<Seq<char>>,
    exported: Seq<char>,
)
    requires
        export_result(keys, from) is Ok,
        encoded_export(jwk_text(keys, from)) == Ok::<Seq<char>, Failure>(exported),
        resolve_key_id(from) != resolve_key_id(to),
        import_result(keys, to, false) is Ok,
        encoded_key_failure(exported) is None,
        described_view(encoded_text(exported)).material == export_result(keys, from)->Ok_0.material,
    ensures
        ({
            let held = import_state(keys, described_view(encoded_text(exported)), to, false);
            &&& export_result(held, to) is Ok
            &&& export_result(held, to)->Ok_0.material == export_result(keys, from)->Ok_0.material
            &&& export_result(held, to)->Ok_0.label == Some(resolve_key_id(to))
            &&& export_result(held, from) == export_result(keys, from)
            &&& did_result(held, to) == did_result(keys, from)
        }),
{
}

/// A key keeps its identifier when its id is renamed.
pub proof fn law_rename_keeps_the_identity(keys: KeyMap, old_id: Seq<char>, new_id: Seq<char>)
    requires
        rename_result(keys, old_id, new_id) is Ok,
    ensures
        did_result(rename_state(keys, old_id, new_id), Some(new_id)) == did_result(keys, Some(old_id)),
{
}

/// An attachment fails if and only if neither the caller nor the session
/// names an id, and then nothing changes. Attaching to an id that is held puts
/// the session in place of the one that was there and leaves the key.
/// Attaching to an id that is not held keeps the session for that id beside
/// the keys. In no case does an id come to be held or cease to be held: what
/// is listed and what can be exported is what it was.
pub proof fn law_attach_keeps_the_keys(
    keys: KeyMap,
    pending: PendingMap,
    key_id: Option<Seq<char>>,
    session: SessionView,
)
    ensures
        attach_result(key_id, session) is Err <==> key_id is None && session.key_id is None,
        attach_result(key_id, session) is Err ==> attach_result(key_id, session) == Err::<(), Failure>(
            missing_key_id(),
        ) && attach_state(keys, key_id, session) == keys && attach_pending(keys, pending, key_id, session)
            == pending,
        attach_state(keys, key_id, session).dom() == keys.dom(),
        forall|id: Seq<char>|
            keys.dom().contains(id) ==> (#[trigger] attach_state(keys, key_id, session)[id]).key == keys[id].key,
        forall|id: Option<Seq<char>>| #[trigger]
            export_result(attach_state(keys, key_id, session), id) == export_result(keys, id),
        attach_target(key_id, session) matches Some(id) ==> (if keys.dom().contains(id) {
            &&& attach_state(keys, key_id, session)[id].session == Some(session)
            &&& attach_pending(keys, pending, key_id, session) == pending
        } else {
            &&& attach_state(keys, key_id, session) == keys
            &&& attach_pending(keys, pending, key_id, session).dom().contains(id)
            &&& attach_pending(keys, pending, key_id, session)[id] == session
        }),
{
    assert(attach_state(keys, key_id, session).dom() =~= keys.dom());
}

/// A second attachment to the same id stands in place of the first, held or
/// kept.
pub proof fn law_attach_overwrites(
    keys: KeyMap,
    pending: PendingMap,
    key_id: Option<Seq<char>>,
    first: SessionView,
    second: SessionView,
)
    requires
        attach_target(key_id, first) == attach_target(key_id, second),
    ensures
        attach_state(attach_state(keys, key_id, first), key_id, second) == attach_state(keys, key_id, second),
        attach_pending(
            attach_state(keys, key_id, first),
            attach_pending(keys, pending, key_id, first),
            key_id,
            second,
        ) == attach_pending(keys, pending, key_id, second),
{
    assert(attach_state(keys, key_id, first).dom() =~= keys.dom());
    assert(attach_state(attach_state(keys, key_id, first), key_id, second) =~= attach_state(
        keys,
        key_id,
        second,
    ));
    assert(attach_pending(
        attach_state(keys, key_id, first),
        attach_pending(keys, pending, key_id, first),
        key_id,
        second,
    ) =~= attach_pending(keys, pending, key_id, second));
}

/// The sessions that are kept beside the keys are for ids that are not held:
/// it is so of a new store, and import, creation, rename and attachment keep
/// it so.
pub proof fn law_pending_stays_apart(
    keys: KeyMap,
    pending: PendingMap,
    key: KeyView,
    key_id: Option<Seq<char>>,
    allow_override: bool,
    old_id: Seq<char>,
    new_id: Seq<char>,
    session: SessionView,
)
    requires
        pending_apart(keys, pending),
    ensures
        pending_apart(initial_keys(key), Map::<Seq<char>, SessionView>::empty()),
        pending_apart(
            import_state(keys, key, key_id, allow_override),
            import_pending(keys, pending, key_id, allow_override),
        ),
        pending_apart(rename_state(keys, old_id, new_id), rename_pending(keys, pending, old_id, new_id)),
        pending_apart(attach_state(keys, key_id, session), attach_pending(keys, pending, key_id, session)),
{
    assert(attach_state(keys, key_id, session).dom() =~= keys.dom());
    assert forall|id: Seq<char>|
        !(rename_state(keys, old_id, new_id).dom().contains(id) && #[trigger] rename_pending(
            keys,
            pending,
            old_id,
            new_id,
        ).dom().contains(id)) by {
        assert(!(keys.dom().contains(id) && pending.dom().contains(id)));
    }
    assert forall|id: Seq<char>|
        !(import_state(keys, key, key_id, allow_override).dom().contains(id) && #[trigger] import_pending(
            keys,
            pending,
            key_id,
            allow_override,
        ).dom().contains(id)) by {
        assert(!(keys.dom().contains(id) && pending.dom().contains(id)));
    }
    assert forall|id: Seq<char>|
        !(attach_state(keys, key_id, session).dom().contains(id) && #[trigger] attach_pending(
            keys,
            pending,
            key_id,
            session,
        ).dom().contains(id)) by {
        assert(!(keys.dom().contains(id) && pending.dom().contains(id)));
    }
}

/// Every id that the store holds has a key that can be exported.
pub proof fn law_every_id_has_a_key(keys: KeyMap, id: Seq<char>)
    requires
        keys.dom().contains(id),
    ensures
        export_result(keys, Some(id)) == Ok::<KeyView, Failure>(keys[id].key),
{
}

/// Whether the character is a hexadecimal digit, in either case.
pub open spec fn is_hex_digit(c: char) -> bool {
    ('0' <= c && c <= '9') || ('a' <= c && c <= 'f') || ('A' <= c && c <= 'F')
}

/// Forty hexadecimal digits decode to the same twenty bytes with the marker
/// `0x` before them and without it.
pub proof fn law_address_marker_changes_nothing(digits: Seq<char>)
    requires
        digits.len() == 40,
        forall|i: int| 0 <= i < digits.len() ==> is_hex_digit(#[trigger] digits[i]),
    ensures
        address_result(digits) == Ok::<Seq<u8>, Failure>(hex_decoded(encode_utf8(digits))),
        address_result(seq!['0', 'x'] + digits) == address_result(digits),
        hex_decoded(encode_utf8(digits)).len() == 20,
{
    let marked = seq!['0', 'x'] + digits;
    assert(is_ascii_chars(digits));
    assert(is_ascii_chars(marked)) by {
        assert forall|i: int| 0 <= i < marked.len() implies '\0' <= #[trigger] marked[i] <= '\u{7f}' by {
            if i >= 2 {
                assert(marked[i] == digits[i - 2]);
            }
        }
    }
    is_ascii_chars_encode_utf8(digits);
    is_ascii_chars_encode_utf8(marked);
    let plain_bytes = encode_utf8(digits);
    let marked_bytes = encode_utf8(marked);
    assert forall|i: int| 0 <= i < plain_bytes.len() implies hex_digit_value(#[trigger] plain_bytes[i]) is Some by {
        assert(is_hex_digit(digits[i]));
        assert(digits[i] as u8 == plain_bytes[i]);
    }
    assert(all_hex_digits(plain_bytes));
    assert(hex_digit_value(plain_bytes[1]) is Some);
    assert(marked[0] as u8 == marked_bytes[0] && marked[1] as u8 == marked_bytes[1]);
    assert(marked_bytes.subrange(2, marked_bytes.len() as int) =~= plain_bytes) by {
        assert forall|i: int| 0 <= i < plain_bytes.len() implies marked_bytes[i + 2] == plain_bytes[i] by {
            assert(marked[i + 2] == digits[i]);
            assert(marked[i + 2] as u8 == marked_bytes[i + 2]);
            assert(digits[i] as u8 == plain_bytes[i]);
        }
    }
}

/// An empty batch adds no grant and is no failure, whatever the namespace
/// and the target.
pub proof fn law_empty_batch_is_a_no_op(grants: Seq<GrantView>, namespace: Seq<char>, target: Seq<char>)
    ensures
        add_result(namespace, target, Seq::<Seq<char>>::empty()) is Ok,
        add_state(grants, namespace, target, Seq::<Seq<char>>::empty()) == grants,
{
    assert(batch(namespace, target, Seq::<Seq<char>>::empty()) =~= Seq::<GrantView>::empty());
    assert(grants + Seq::<GrantView>::empty() =~= grants);
}

/// A batch whose namespace and target name no URI fails with
/// `InvalidNamespace`, and the grants stay as they were.
pub proof fn law_invalid_namespace_is_refused(
    grants: Seq<GrantView>,
    namespace: Seq<char>,
    target: Seq<char>,
    actions: Seq<Seq<char>>,
)
    requires
        uri_error(resource_text(namespace, target)) is Some,
        actions.len() > 0,
    ensures
        add_result(namespace, target, actions) is Err,
        add_result(namespace, target, actions)->Err_0.kind == ErrorKind::InvalidNamespace,
        add_state(grants, namespace, target, actions) == grants,
{
}

/// A batch whose resource is a URI and whose actions are well formed is
/// added, whatever the namespace is made of: behind the grants that were
/// there stands one grant for each action, in the batch's order, on the
/// resource of the namespace and the target as they were given, without extra
/// fields.
pub proof fn law_valid_batch_is_added(
    grants: Seq<GrantView>,
    namespace: Seq<char>,
    target: Seq<char>,
    actions: Seq<Seq<char>>,
)
    requires
        uri_error(resource_text(namespace, target)) is None,
        crate::capability::all_actions_valid(actions),
    ensures
        add_result(namespace, target, actions) is Ok,
        add_state(grants, namespace, target, actions).len() == grants.len() + actions.len(),
        forall|i: int| 0 <= i < grants.len() ==> add_state(grants, namespace, target, actions)[i] == grants[i],
        forall|i: int|
            0 <= i < actions.len() ==> #[trigger] add_state(grants, namespace, target, actions)[grants.len() + i]
                == (GrantView {
                namespace,
                target: namespace + ":"@ + target,
                action: actions[i],
                extra_fields: None,
            }),
{
}

/// Granting on every target of a namespace is granting on its target `*`:
/// the two give the same answer and leave the same grants.
pub proof fn law_default_is_the_target_star(grants: Seq<GrantView>, namespace: Seq<char>, actions: Seq<Seq<char>>)
    ensures
        every_target() == seq!['*'],
        add_result(namespace, every_target(), actions) == add_result(namespace, seq!['*'], actions),
        add_state(grants, namespace, every_target(), actions) == add_state(grants, namespace, seq!['*'], actions),
{
    reveal_strlit("*");
    assert(every_target() =~= seq!['*']);
}

/// A batch is added whole or not at all: the grants after it are those
/// before it, followed by one grant for each action of the batch or by none.
pub proof fn law_batch_is_all_or_nothing(
    grants: Seq<GrantView>,
    namespace: Seq<char>,
    target: Seq<char>,
    actions: Seq<Seq<char>>,
)
    ensures
        ({
            let after = add_state(grants, namespace, target, actions);
            &&& after.len() == grants.len() || after.len() == grants.len() + actions.len()
            &&& after.len() == grants.len() + actions.len() <==> add_result(namespace, target, actions) is Ok
                || actions.len() == 0
            &&& forall|i: int| 0 <= i < grants.len() ==> #[trigger] after[i] == grants[i]
        }),
{
}

/// With a nonce in the request, the message is a function of what it is built
/// from: two buildings of the same request for the same signer and grants give
/// the same outcome, whatever the grants are.
pub proof fn law_explicit_nonce_is_deterministic(
    config: SiweConfigView,
    uri: Seq<char>,
    grants: Seq<GrantView>,
    first_nonce: Seq<char>,
    second_nonce: Seq<char>,
    first: Result<Seq<char>, Failure>,
    second: Result<Seq<char>, Failure>,
)
    requires
        config.nonce is Some,
        built_with(config, uri, grants, first_nonce, first),
        built_with(config, uri, grants, second_nonce, second),
    ensures
        first == second,
{
}

} // verus!
