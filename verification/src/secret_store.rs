use crate::types::{tag_or_default, AsEnvStr, EnvKey, EnvType, FromKey};
use shuttle_runtime::SecretStore;
use vstd::prelude::*;
use vstd::std_specs::convert::FromSpecImpl;

verus! {

/// `shuttle_runtime::SecretStore`: secrets under their names.
#[verifier::external_type_specification]
#[verifier::external_body]
pub struct ExSecretStore(SecretStore);

/// The secrets that `store` holds, each under its name.
pub uninterp spec fn secrets(store: SecretStore) -> Map<Seq<char>, Seq<char>>;

/// The secret under `key`, and the empty string where there is none.
pub open spec fn secret_or_empty(secrets: Map<Seq<char>, Seq<char>>, key: Seq<char>) -> Seq<char> {
    if secrets.contains_key(key) {
        secrets[key]
    } else {
        Seq::<char>::empty()
    }
}

/// `SecretStore::get`: a copy of the secret under `key`, `None` where the
/// store holds none under that name.
#[verifier::external_body]
fn secret(store: &SecretStore, key: &str) -> (r: Option<String>)
    ensures
        secrets(*store).contains_key(key@) ==> r is Some && r->0@ == secrets(*store)[key@],
        !secrets(*store).contains_key(key@) ==> r is None,
{
    store.get(key)
}

/// Whether `text` is what `store` holds under the name that `K` gives: the
/// secret under `K::key()`, and the empty string where there is none.
pub open spec fn is_secret_text<K: EnvKey>(store: SecretStore, text: Seq<char>) -> bool {
    exists|key: &'static str|
        call_ensures(K::key, (), key) && text == secret_or_empty(secrets(store), key@)
}

/// The secret that `store` holds under `K::key()`, and the empty string
/// where it holds none.
pub fn secret_text<K: EnvKey>(store: &SecretStore) -> (text: String)
    ensures
        is_secret_text::<K>(*store, text@),
{
    let key = K::key();
    match secret(store, key) {
        Some(text) => text,
        None => String::new(),
    }
}

/// A secret store holds the environment as the secret named `T::key()`.
impl AsEnvStr for SecretStore {
    fn as_env_str<T: EnvKey>(&self) -> (text: String)
        ensures
            is_secret_text::<T>(*self, text@),
    {
        secret_text::<T>(self)
    }

    /// A secret store gives, for a name, the secret under that name, and the
    /// empty string where it holds none.
    open spec fn gives(&self, name: Seq<char>, text: Seq<char>) -> bool {
        text == secret_or_empty(secrets(*self), name)
    }
}

/// The environment named by the secret `ENV`, and `Dev` where there is no
/// such secret or it names none.
impl From<SecretStore> for EnvType {
    fn from(secret: SecretStore) -> (r: EnvType) {
        let text = secret_text::<EnvType>(&secret);
        EnvType::parse_or_default(text.as_str())
    }
}

impl FromSpecImpl<SecretStore> for EnvType {
    open spec fn obeys_from_spec() -> bool {
        true
    }

    open spec fn from_spec(secret: SecretStore) -> EnvType {
        tag_or_default(secret_or_empty(secrets(secret), "ENV"@))
    }
}

/// The environment named by the secret `K::key()`, and `Dev` where there is
/// no such secret or it names none.
impl FromKey<SecretStore, EnvType> for EnvType {
    fn from_key<K: EnvKey>(secret: SecretStore) -> (r: EnvType)
        ensures
            exists|text: Seq<char>| is_secret_text::<K>(secret, text) && r == tag_or_default(text),
    {
        let text = secret_text::<K>(&secret);
        EnvType::parse_or_default(text.as_str())
    }
}

} // verus!
