//! The binding of an email address to the subject that first came with it, and of a subject to
//! its email address.

use crate::digest;
use crate::json;
use crate::oidc::token::Identity;
use crate::text;
use vstd::prelude::*;
use vstd::string::*;

verus! {

/// Under what the bindings are stored.
pub const OIDC_BINDING_NAMESPACE: &'static str = "creator_signal_oidc_binding";

/// What an email address, or a subject, is bound to.
#[derive(Clone, Debug, PartialEq, Eq)]
pub struct SubjectBinding {
    pub issuer: String,
    pub subject: String,
    pub email: String,
}

/// What a [`SubjectBinding`] stands for.
pub struct BindingView {
    pub issuer: Seq<char>,
    pub subject: Seq<char>,
    pub email: Seq<char>,
}

impl View for SubjectBinding {
    type V = BindingView;

    open spec fn view(&self) -> BindingView {
        BindingView { issuer: self.issuer@, subject: self.subject@, email: self.email@ }
    }
}

/// The identity is bound to another account.
#[derive(Clone, Copy, Debug, PartialEq, Eq, Structural)]
pub struct BindingConflict;

/// The binding of an identity.
pub open spec fn binding_of(identity: Identity) -> BindingView {
    BindingView { issuer: identity.issuer@, subject: identity.subject@, email: identity.email@ }
}

/// Under what the binding of the email address is stored.
pub open spec fn email_key_text(identity: Identity) -> Seq<char> {
    digest::binding_key_text("email"@, identity.email@)
}

/// Under what the binding of the subject is stored.
pub open spec fn subject_key_text(identity: Identity) -> Seq<char> {
    digest::binding_key_text("subject"@, identity.issuer@ + "\n"@ + identity.subject@)
}

/// A binding as JSON.
pub open spec fn binding_json(binding: BindingView) -> Seq<char> {
    "{\"issuer\":"@ + json::json_string(binding.issuer) + ",\"subject\":"@ + json::json_string(
        binding.subject,
    ) + ",\"email\":"@ + json::json_string(binding.email) + "}"@
}

/// What is stored under a key, if anything, does not bind the identity to another account.
pub open spec fn binding_admits(existing: Option<BindingView>, identity: Identity) -> bool {
    existing matches Some(binding) ==> binding == binding_of(identity)
}

/// Whether a key is among those that are stored: only then is there a binding to read.
pub fn is_listed(keys: &Vec<String>, key: &str) -> (listed: bool)
    ensures
        listed == text::texts(keys@).contains(key@),
{
    text::lists(keys, key)
}

/// Under what the binding of the email address is stored.
pub fn email_key(identity: &Identity) -> (key: String)
    ensures
        key@ == email_key_text(*identity),
{
    digest::binding_key("email", identity.email.as_str())
}

/// Under what the binding of the subject is stored.
pub fn subject_key(identity: &Identity) -> (key: String)
    ensures
        key@ == subject_key_text(*identity),
{
    let mut value: String = text::joined(identity.issuer.as_str(), "\n");
    value.append(identity.subject.as_str());
    digest::binding_key("subject", value.as_str())
}

/// The binding of an identity as JSON.
pub fn binding_value(identity: &Identity) -> (value: String)
    ensures
        value@ == binding_json(binding_of(*identity)),
{
    let mut value: String = "{\"issuer\":".to_owned();
    value.append(json::quoted(identity.issuer.as_str()).as_str());
    value.append(",\"subject\":");
    value.append(json::quoted(identity.subject.as_str()).as_str());
    value.append(",\"email\":");
    value.append(json::quoted(identity.email.as_str()).as_str());
    value.append("}");
    value
}

/// The view of a binding that may be missing.
pub open spec fn optional_binding_view(binding: Option<SubjectBinding>) -> Option<BindingView> {
    match binding {
        Some(stored) => Some(stored@),
        None => None,
    }
}

/// Checks what is stored under one of the keys of an identity.
pub fn check_binding(identity: &Identity, existing: &Option<SubjectBinding>) -> (result: Result<
    (),
    BindingConflict,
>)
    ensures
        result is Ok <==> binding_admits(optional_binding_view(*existing), *identity),
{
    match existing {
        Some(binding) => {
            if text::same_text(binding.issuer.as_str(), identity.issuer.as_str())
                && text::same_text(binding.subject.as_str(), identity.subject.as_str())
                && text::same_text(binding.email.as_str(), identity.email.as_str()) {
                Ok(())
            } else {
                Err(BindingConflict)
            }
        },
        None => Ok(()),
    }
}

// ---------------------------------------------------------------------------------------------
// Laws
// ---------------------------------------------------------------------------------------------

/// What is stored under a key.
pub open spec fn stored(store: Map<Seq<char>, BindingView>, key: Seq<char>) -> Option<BindingView> {
    if store.dom().contains(key) {
        Some(store[key])
    } else {
        None
    }
}

/// The identity can be bound: nothing that is stored binds it to another account.
pub open spec fn bindable(store: Map<Seq<char>, BindingView>, identity: Identity) -> bool {
    &&& binding_admits(stored(store, email_key_text(identity)), identity)
    &&& binding_admits(stored(store, subject_key_text(identity)), identity)
}

/// What is stored once the identity is bound.
pub open spec fn with_binding(store: Map<Seq<char>, BindingView>, identity: Identity) -> Map<
    Seq<char>,
    BindingView,
> {
    store.insert(email_key_text(identity), binding_of(identity)).insert(
        subject_key_text(identity),
        binding_of(identity),
    )
}

/// Once bound, always bound: binding an identity changes and removes nothing that was stored.
pub proof fn bindings_never_change(
    store: Map<Seq<char>, BindingView>,
    identity: Identity,
    key: Seq<char>,
)
    requires
        bindable(store, identity),
        store.dom().contains(key),
    ensures
        with_binding(store, identity).dom().contains(key),
        with_binding(store, identity)[key] == store[key],
{
}

/// An identity that is bound can be bound again, and that changes nothing.
pub proof fn binding_twice_is_binding_once(store: Map<Seq<char>, BindingView>, identity: Identity)
    ensures
        bindable(with_binding(store, identity), identity),
        with_binding(with_binding(store, identity), identity) == with_binding(store, identity),
{
    assert(with_binding(with_binding(store, identity), identity) =~= with_binding(store, identity));
}

/// Where only the first of the two writes was done, the identity can still be bound, and what is
/// stored then is the same.
pub proof fn an_interrupted_binding_is_completed(
    store: Map<Seq<char>, BindingView>,
    identity: Identity,
)
    requires
        bindable(store, identity),
    ensures
        bindable(store.insert(email_key_text(identity), binding_of(identity)), identity),
        with_binding(store.insert(email_key_text(identity), binding_of(identity)), identity)
            == with_binding(store, identity),
{
    assert(with_binding(store.insert(email_key_text(identity), binding_of(identity)), identity)
        =~= with_binding(store, identity));
}

/// An email address stays with the subject that it was bound to: another identity that comes with
/// it is the same subject of the same issuer, or is refused.
pub proof fn an_email_stays_with_its_subject(
    store: Map<Seq<char>, BindingView>,
    first: Identity,
    second: Identity,
)
    requires
        stored(store, email_key_text(first)) == Some(binding_of(first)),
        first.email@ == second.email@,
        bindable(store, second),
    ensures
        first.issuer@ == second.issuer@,
        first.subject@ == second.subject@,
{
}

/// A subject stays with the email address that it was bound to: where it comes with another, it is
/// refused.
pub proof fn a_subject_stays_with_its_email(
    store: Map<Seq<char>, BindingView>,
    first: Identity,
    second: Identity,
)
    requires
        stored(store, subject_key_text(first)) == Some(binding_of(first)),
        first.issuer@ == second.issuer@,
        first.subject@ == second.subject@,
        bindable(store, second),
    ensures
        first.email@ == second.email@,
{
}

/// An email address and a subject are never bound under the same key.
pub proof fn emails_and_subjects_are_bound_apart(first: Identity, second: Identity)
    ensures
        email_key_text(first) != subject_key_text(second),
{
    reveal_strlit("email");
    reveal_strlit("subject");
    reveal_strlit(":");
    assert(email_key_text(first)[0] == 'e');
    assert(subject_key_text(second)[0] == 's');
}

/// What is stored admits an identity exactly where it is nothing, or has the same issuer, the same
/// subject and the same email address; one that differs in any of them is refused.
pub proof fn a_binding_admits_its_own_identity_alone(existing: BindingView, identity: Identity)
    ensures
        binding_admits(None, identity),
        binding_admits(Some(existing), identity) <==> existing.issuer == identity.issuer@
            && existing.subject == identity.subject@ && existing.email == identity.email@,
{
}

/// The key of an email address depends on the address alone, and the key of a subject on the issuer
/// and the subject alone, with a line feed between them.
pub proof fn keys_depend_on_what_they_are_for(a: Identity, b: Identity)
    ensures
        a.email@ == b.email@ ==> email_key_text(a) == email_key_text(b),
        a.issuer@ == b.issuer@ && a.subject@ == b.subject@ ==> subject_key_text(a)
            == subject_key_text(b),
        email_key_text(a) == "email:"@ + digest::digest_text(a.email@),
        subject_key_text(a) == "subject:"@ + digest::digest_text(
            a.issuer@ + seq!['\n'] + a.subject@,
        ),
{
    reveal_strlit("email");
    reveal_strlit("email:");
    reveal_strlit("subject");
    reveal_strlit("subject:");
    reveal_strlit(":");
    reveal_strlit("\n");
    assert("\n"@ =~= seq!['\n']);
    assert("email"@ + ":"@ =~= "email:"@);
    assert("subject"@ + ":"@ =~= "subject:"@);
    assert(email_key_text(a) =~= "email:"@ + digest::digest_text(a.email@));
    assert(subject_key_text(a) =~= "subject:"@ + digest::digest_text(
        a.issuer@ + seq!['\n'] + a.subject@,
    ));
}

/// An identity of which nothing is stored yet can be bound, and so can one that is bound as it is.
pub proof fn a_new_identity_can_be_bound(store: Map<Seq<char>, BindingView>, identity: Identity)
    ensures
        !store.dom().contains(email_key_text(identity)) && !store.dom().contains(
            subject_key_text(identity),
        ) ==> bindable(store, identity),
        store.dom().contains(email_key_text(identity)) && store.dom().contains(
            subject_key_text(identity),
        ) ==> (bindable(store, identity) <==> store[email_key_text(identity)] == (BindingView {
            issuer: identity.issuer@,
            subject: identity.subject@,
            email: identity.email@,
        }) && store[subject_key_text(identity)] == (BindingView {
            issuer: identity.issuer@,
            subject: identity.subject@,
            email: identity.email@,
        })),
{
}

/// A binding is written with its issuer, its subject and its email address, in this order.
pub proof fn a_binding_is_written_field_by_field(identity: Identity)
    ensures
        binding_json(binding_of(identity)) == "{\"issuer\":"@ + json::json_string(identity.issuer@)
            + (",\"subject\":"@ + json::json_string(identity.subject@)) + (",\"email\":"@
            + json::json_string(identity.email@) + "}"@),
{
    assert(binding_json(binding_of(identity)) =~= "{\"issuer\":"@ + json::json_string(
        identity.issuer@,
    ) + (",\"subject\":"@ + json::json_string(identity.subject@)) + (",\"email\":"@
        + json::json_string(identity.email@) + "}"@));
}

} // verus!
