use std::str::FromStr;
use vstd::prelude::*;
use vstd::string::StringSliceAdditionalSpecFns;
use vstd::utf8::encode_utf8_decode_utf8;

verus! {

/// The environment a program is deployed in.
#[derive(Debug, Clone, Copy, PartialEq, Eq, Hash, Structural)]
pub enum EnvType {
    Dev,
    Test,
    Stg,
    Prod,
}

/// `strum::ParseError`, what parsing fails with: an enum of the one variant
/// `VariantNotFound`.
#[verifier::external_type_specification]
pub struct ExParseError(strum::ParseError);

/// Whether `s` is one of the spellings accepted for `tag`. The spellings are
/// exact: `"dev"`, `"Dev"` and `"DEV"` name `Dev`, `"DeV"` names nothing.
pub open spec fn is_alias(tag: EnvType, s: Seq<char>) -> bool {
    match tag {
        EnvType::Dev => {
            ||| s == "develop"@
            ||| s == "Develop"@
            ||| s == "dev"@
            ||| s == "Dev"@
            ||| s == "DEV"@
            ||| s == "d"@
            ||| s == "D"@
        },
        EnvType::Test => {
            ||| s == "test"@
            ||| s == "Test"@
            ||| s == "TEST"@
            ||| s == "t"@
            ||| s == "T"@
        },
        EnvType::Stg => {
            ||| s == "staging"@
            ||| s == "Staging"@
            ||| s == "stg"@
            ||| s == "Stg"@
            ||| s == "STG"@
            ||| s == "s"@
            ||| s == "S"@
        },
        EnvType::Prod => {
            ||| s == "production"@
            ||| s == "Production"@
            ||| s == "prod"@
            ||| s == "Prod"@
            ||| s == "PROD"@
            ||| s == "p"@
            ||| s == "P"@
        },
    }
}

/// The environment that `s` names, if it names one.
pub open spec fn tag_of(s: Seq<char>) -> Option<EnvType> {
    if is_alias(EnvType::Dev, s) {
        Some(EnvType::Dev)
    } else if is_alias(EnvType::Test, s) {
        Some(EnvType::Test)
    } else if is_alias(EnvType::Stg, s) {
        Some(EnvType::Stg)
    } else if is_alias(EnvType::Prod, s) {
        Some(EnvType::Prod)
    } else {
        None
    }
}

/// The environment that `s` names, and `Dev` where it names none.
pub open spec fn tag_or_default(s: Seq<char>) -> EnvType {
    match tag_of(s) {
        Some(tag) => tag,
        None => EnvType::Dev,
    }
}

/// Whether `a` and `b` hold the same characters.
fn same_text(a: &str, b: &str) -> (r: bool)
    ensures
        r == (a@ == b@),
{
    let x = a.as_bytes();
    let y = b.as_bytes();
    if x.len() != y.len() {
        return false;
    }
    let mut i: usize = 0;
    while i < x.len()
        invariant
            x@.len() == y@.len(),
            i <= x@.len(),
            x@ == a.spec_bytes(),
            y@ == b.spec_bytes(),
            forall|j: int| 0 <= j < i ==> x@[j] == y@[j],
        decreases x@.len() - i,
    {
        if x[i] != y[i] {
            return false;
        }
        i += 1;
    }
    proof {
        assert(x@ =~= y@);
        encode_utf8_decode_utf8(a@);
        encode_utf8_decode_utf8(b@);
    }
    true
}

impl EnvType {
    /// Whether `s` is one of the spellings of `tag`.
    fn is_named(tag: EnvType, s: &str) -> (r: bool)
        ensures
            r == is_alias(tag, s@),
    {
        match tag {
            EnvType::Dev => {
                same_text(s, "develop") || same_text(s, "Develop") || same_text(s, "dev")
                    || same_text(s, "Dev") || same_text(s, "DEV") || same_text(s, "d")
                    || same_text(s, "D")
            },
            EnvType::Test => {
                same_text(s, "test") || same_text(s, "Test") || same_text(s, "TEST")
                    || same_text(s, "t") || same_text(s, "T")
            },
            EnvType::Stg => {
                same_text(s, "staging") || same_text(s, "Staging") || same_text(s, "stg")
                    || same_text(s, "Stg") || same_text(s, "STG") || same_text(s, "s")
                    || same_text(s, "S")
            },
            EnvType::Prod => {
                same_text(s, "production") || same_text(s, "Production") || same_text(s, "prod")
                    || same_text(s, "Prod") || same_text(s, "PROD") || same_text(s, "p")
                    || same_text(s, "P")
            },
        }
    }

    /// Reads an environment from one of its spellings; any other string,
    /// the empty one too, is an error.
    pub fn parse(s: &str) -> (r: Result<EnvType, strum::ParseError>)
        ensures
            r == match tag_of(s@) {
                Some(tag) => Ok::<EnvType, strum::ParseError>(tag),
                None => Err::<EnvType, strum::ParseError>(strum::ParseError::VariantNotFound),
            },
    {
        if Self::is_named(EnvType::Dev, s) {
            Ok(EnvType::Dev)
        } else if Self::is_named(EnvType::Test, s) {
            Ok(EnvType::Test)
        } else if Self::is_named(EnvType::Stg, s) {
            Ok(EnvType::Stg)
        } else if Self::is_named(EnvType::Prod, s) {
            Ok(EnvType::Prod)
        } else {
            Err(strum::ParseError::VariantNotFound)
        }
    }

    /// Whether this is the development environment.
    pub fn is_dev(&self) -> (r: bool)
        ensures
            r == (*self == EnvType::Dev),
    {
        matches!(self, EnvType::Dev)
    }

    /// Whether this is the test environment.
    pub fn is_test(&self) -> (r: bool)
        ensures
            r == (*self == EnvType::Test),
    {
        matches!(self, EnvType::Test)
    }

    /// Whether this is the staging environment.
    pub fn is_stg(&self) -> (r: bool)
        ensures
            r == (*self == EnvType::Stg),
    {
        matches!(self, EnvType::Stg)
    }

    /// Whether this is the production environment.
    pub fn is_prod(&self) -> (r: bool)
        ensures
            r == (*self == EnvType::Prod),
    {
        matches!(self, EnvType::Prod)
    }

    /// Reads an environment from `s` and falls back to `Dev` where `s`
    /// names none.
    pub fn parse_or_default(s: &str) -> (r: EnvType)
        ensures
            r == tag_or_default(s@),
    {
        match EnvType::parse(s) {
            Ok(tag) => tag,
            Err(_) => EnvType::Dev,
        }
    }
}

impl Default for EnvType {
    fn default() -> (r: EnvType)
        ensures
            r == EnvType::Dev,
    {
        EnvType::Dev
    }
}

impl FromStr for EnvType {
    type Err = strum::ParseError;

    fn from_str(s: &str) -> (r: Result<EnvType, strum::ParseError>)
        ensures
            r == match tag_of(s@) {
                Some(tag) => Ok::<EnvType, strum::ParseError>(tag),
                None => Err::<EnvType, strum::ParseError>(strum::ParseError::VariantNotFound),
            },
    {
        EnvType::parse(s)
    }
}

/// What a lookup or a build fails with.
#[derive(Debug, Clone, Copy, PartialEq, Eq, Hash, Structural)]
pub enum EnvError {
    /// A context holds neither a value for the environment asked for nor a
    /// default.
    ContextValueNotFound,
    /// An environment was built without a current environment.
    NoCurrentEnv,
}

/// The name under which a source holds the environment.
pub trait EnvKey {
    fn key() -> &'static str;
}

/// The name used where the caller gives none.
impl EnvKey for EnvType {
    fn key() -> (k: &'static str)
        ensures
            k@ == "ENV"@,
    {
        "ENV"
    }
}

/// A source that holds strings under names: `as_env_str` gives the string
/// held under the name `T::key()`, and the empty string where there is none.
pub trait AsEnvStr {
    /// Whether `text` is a string that this source may give for the name
    /// `name`. A source says here what it holds; one that says nothing may
    /// give any string.
    open spec fn gives(&self, name: Seq<char>, text: Seq<char>) -> bool {
        true
    }

    /// A string that the source gives for a name that `T::key()` returns.
    fn as_env_str<T: EnvKey>(&self) -> (text: String)
        ensures
            exists|name: &'static str| call_ensures(T::key, (), name) && self.gives(name@, text@),
    ;
}

/// Conversion from `V` to `S` that reads `V` under the name `K::key()`.
pub trait FromKey<V, S> {
    fn from_key<K: EnvKey>(value: V) -> S;
}

/// A value that may hold the spelling of an environment.
pub trait AsEnvTypeStr {
    fn as_env_type_str(&self) -> Option<String>;
}

/// The characters of `text`, none where there is no text.
pub open spec fn text_or_empty(text: Option<String>) -> Seq<char> {
    match text {
        Some(t) => t@,
        None => Seq::<char>::empty(),
    }
}

/// The value of the variable named `name` among `vars`, pairs of a name and
/// a value: that of the first pair of that name, and none where no pair has
/// it.
pub open spec fn var_in(vars: Seq<(String, String)>, name: Seq<char>) -> Option<Seq<char>>
    decreases vars.len(),
{
    if vars.len() == 0 {
        None
    } else if vars[0].0@ == name {
        Some(vars[0].1@)
    } else {
        var_in(vars.drop_first(), name)
    }
}

/// The characters of `value`, none where there is no value.
pub open spec fn value_or_empty(value: Option<Seq<char>>) -> Seq<char> {
    match value {
        Some(v) => v,
        None => Seq::<char>::empty(),
    }
}

/// The first pair named `name` decides, whatever comes after it.
proof fn lemma_first_of_name_decides(vars: Seq<(String, String)>, name: Seq<char>, i: int)
    requires
        0 <= i < vars.len(),
        vars[i].0@ == name,
        forall|j: int| 0 <= j < i ==> (#[trigger] vars[j]).0@ != name,
    ensures
        var_in(vars, name) == Some(vars[i].1@),
    decreases i,
{
    if i > 0 {
        let rest = vars.drop_first();
        assert(vars[0].0@ != name);
        assert forall|j: int| 0 <= j < i - 1 implies (#[trigger] rest[j]).0@ != name by {
            assert(rest[j] == vars[j + 1]);
        }
        lemma_first_of_name_decides(rest, name, i - 1);
    }
}

/// Where no pair is named `name`, the variable has no value.
proof fn lemma_no_pair_no_value(vars: Seq<(String, String)>, name: Seq<char>)
    requires
        forall|j: int| 0 <= j < vars.len() ==> (#[trigger] vars[j]).0@ != name,
    ensures
        var_in(vars, name) is None,
    decreases vars.len(),
{
    if vars.len() > 0 {
        let rest = vars.drop_first();
        assert(vars[0].0@ != name);
        assert forall|j: int| 0 <= j < rest.len() implies (#[trigger] rest[j]).0@ != name by {
            assert(rest[j] == vars[j + 1]);
        }
        lemma_no_pair_no_value(rest, name);
    }
}

/// The value of the variable named `name` among `vars`.
fn var<'a>(vars: &'a [(String, String)], name: &str) -> (r: Option<&'a String>)
    ensures
        match var_in(vars@, name@) {
            Some(value) => r is Some && r->0@ == value,
            None => r is None,
        },
{
    let mut i: usize = 0;
    while i < vars.len()
        invariant
            i <= vars@.len(),
            forall|j: int| 0 <= j < i ==> (#[trigger] vars@[j]).0@ != name@,
        decreases vars@.len() - i,
    {
        if same_text(vars[i].0.as_str(), name) {
            proof {
                lemma_first_of_name_decides(vars@, name@, i as int);
            }
            return Some(&vars[i].1);
        }
        i += 1;
    }
    proof {
        lemma_no_pair_no_value(vars@, name@);
    }
    None
}

impl EnvType {
    /// The environment named by the variable `ENV` among `vars`, the
    /// variables of the process as the caller read them; `Dev` where the
    /// variable is unset, empty or names no environment.
    pub fn from_env(vars: &[(String, String)]) -> (r: EnvType)
        ensures
            r == tag_or_default(value_or_empty(var_in(vars@, "ENV"@))),
    {
        Self::from_env_key::<EnvType>(vars)
    }

    /// The environment named by the variable `K::key()` among `vars`, the
    /// variables of the process as the caller read them; `Dev` where the
    /// variable is unset, empty or names no environment.
    pub fn from_env_key<K: EnvKey>(vars: &[(String, String)]) -> (r: EnvType)
        ensures
            exists|name: &'static str|
                call_ensures(K::key, (), name) && r == tag_or_default(
                    value_or_empty(var_in(vars@, name@)),
                ),
    {
        let name = K::key();
        let r = match var(vars, name) {
            Some(value) => EnvType::parse_or_default(value.as_str()),
            None => {
                proof {
                    law_empty_string_names_none();
                }
                EnvType::Dev
            },
        };
        assert(call_ensures(K::key, (), name) && r == tag_or_default(
            value_or_empty(var_in(vars@, name@)),
        ));
        r
    }

    /// The environment named by a string that `s` gives for `K::key()`, and
    /// `Dev` where that string names none.
    pub fn from_env_types<S: AsEnvStr, K: EnvKey>(s: S) -> (r: EnvType)
        ensures
            exists|name: &'static str, text: Seq<char>|
                call_ensures(K::key, (), name) && s.gives(name@, text) && r == tag_or_default(
                    text,
                ),
    {
        let text = s.as_env_str::<K>();
        EnvType::parse_or_default(text.as_str())
    }

    /// The environment named by the string that `t` holds, and `Dev` where
    /// it holds none or one that names no environment.
    pub fn from_env_str<T: AsEnvTypeStr>(t: T) -> (r: EnvType)
        ensures
            exists|text: Option<String>|
                call_ensures(T::as_env_type_str, (&t,), text) && r == tag_or_default(
                    text_or_empty(text),
                ),
    {
        let text = t.as_env_type_str();
        let r = match &text {
            Some(found) => EnvType::parse_or_default(found.as_str()),
            None => {
                proof {
                    law_empty_string_names_none();
                }
                EnvType::Dev
            },
        };
        assert(call_ensures(T::as_env_type_str, (&t,), text) && r == tag_or_default(
            text_or_empty(text),
        ));
        r
    }
}

/// The empty string names no environment, and is read as `Dev` where a
/// fallback is asked for.
pub proof fn law_empty_string_names_none()
    ensures
        tag_of(Seq::<char>::empty()) == None::<EnvType>,
        tag_or_default(Seq::<char>::empty()) == EnvType::Dev,
{
    reveal_aliases();
}

/// The length and the first character of every spelling: enough to tell the
/// spellings of one environment from those of another.
proof fn reveal_aliases()
    ensures
        "develop"@.len() == 7 && "develop"@[0] == 'd',
        "Develop"@.len() == 7 && "Develop"@[0] == 'D',
        "dev"@.len() == 3 && "dev"@[0] == 'd',
        "Dev"@.len() == 3 && "Dev"@[0] == 'D',
        "DEV"@.len() == 3 && "DEV"@[0] == 'D',
        "d"@.len() == 1 && "d"@[0] == 'd',
        "D"@.len() == 1 && "D"@[0] == 'D',
        "test"@.len() == 4 && "test"@[0] == 't',
        "Test"@.len() == 4 && "Test"@[0] == 'T',
        "TEST"@.len() == 4 && "TEST"@[0] == 'T',
        "t"@.len() == 1 && "t"@[0] == 't',
        "T"@.len() == 1 && "T"@[0] == 'T',
        "staging"@.len() == 7 && "staging"@[0] == 's',
        "Staging"@.len() == 7 && "Staging"@[0] == 'S',
        "stg"@.len() == 3 && "stg"@[0] == 's',
        "Stg"@.len() == 3 && "Stg"@[0] == 'S',
        "STG"@.len() == 3 && "STG"@[0] == 'S',
        "s"@.len() == 1 && "s"@[0] == 's',
        "S"@.len() == 1 && "S"@[0] == 'S',
        "production"@.len() == 10 && "production"@[0] == 'p',
        "Production"@.len() == 10 && "Production"@[0] == 'P',
        "prod"@.len() == 4 && "prod"@[0] == 'p',
        "Prod"@.len() == 4 && "Prod"@[0] == 'P',
        "PROD"@.len() == 4 && "PROD"@[0] == 'P',
        "p"@.len() == 1 && "p"@[0] == 'p',
        "P"@.len() == 1 && "P"@[0] == 'P',
{
    reveal_strlit("develop");
    reveal_strlit("Develop");
    reveal_strlit("dev");
    reveal_strlit("Dev");
    reveal_strlit("DEV");
    reveal_strlit("d");
    reveal_strlit("D");
    reveal_strlit("test");
    reveal_strlit("Test");
    reveal_strlit("TEST");
    reveal_strlit("t");
    reveal_strlit("T");
    reveal_strlit("staging");
    reveal_strlit("Staging");
    reveal_strlit("stg");
    reveal_strlit("Stg");
    reveal_strlit("STG");
    reveal_strlit("s");
    reveal_strlit("S");
    reveal_strlit("production");
    reveal_strlit("Production");
    reveal_strlit("prod");
    reveal_strlit("Prod");
    reveal_strlit("PROD");
    reveal_strlit("p");
    reveal_strlit("P");
}

/// Every spelling names the environment it is a spelling of, and no other:
/// the spellings of two environments never meet.
pub proof fn law_alias_names_its_tag(tag: EnvType, s: Seq<char>)
    requires
        is_alias(tag, s),
    ensures
        tag_of(s) == Some(tag),
        tag_or_default(s) == tag,
{
    reveal_aliases();
}

/// A string that is no spelling of any environment names none, and is read
/// as `Dev` where a fallback is asked for.
pub proof fn law_other_strings_name_none(s: Seq<char>)
    requires
        forall|tag: EnvType| !is_alias(tag, s),
    ensures
        tag_of(s) == None::<EnvType>,
        tag_or_default(s) == EnvType::Dev,
{
    assert(!is_alias(EnvType::Dev, s));
    assert(!is_alias(EnvType::Test, s));
    assert(!is_alias(EnvType::Stg, s));
    assert(!is_alias(EnvType::Prod, s));
}

/// A string names an environment exactly when it is one of its spellings.
pub proof fn law_tag_of_is_the_table(s: Seq<char>, tag: EnvType)
    ensures
        tag_of(s) == Some(tag) <==> is_alias(tag, s),
{
    if is_alias(tag, s) {
        law_alias_names_its_tag(tag, s);
    }
}

/// A variable set to a spelling of an environment is read as that
/// environment; one that is unset, or set to anything else, is read as
/// `Dev`.
pub proof fn law_variable_names_the_env(vars: Seq<(String, String)>, name: Seq<char>, tag: EnvType)
    ensures
        var_in(vars, name) matches Some(value) && is_alias(tag, value) ==> tag_or_default(
            value_or_empty(var_in(vars, name)),
        ) == tag,
        var_in(vars, name) matches Some(value) && tag_of(value) is None ==> tag_or_default(
            value_or_empty(var_in(vars, name)),
        ) == EnvType::Dev,
        var_in(vars, name) is None ==> tag_or_default(value_or_empty(var_in(vars, name)))
            == EnvType::Dev,
{
    law_empty_string_names_none();
    if var_in(vars, name) matches Some(value) && is_alias(tag, value) {
        law_alias_names_its_tag(tag, var_in(vars, name)->0);
    }
}

/// Setting a variable, by a pair put before the others, makes its value the
/// one that is read, and leaves the variables of other names as they were.
pub proof fn law_variable_set_is_read(
    vars: Seq<(String, String)>,
    name: String,
    value: String,
    other: Seq<char>,
)
    requires
        other != name@,
    ensures
        var_in(seq![(name, value)] + vars, name@) == Some(value@),
        var_in(seq![(name, value)] + vars, other) == var_in(vars, other),
{
    let set = seq![(name, value)] + vars;
    assert(set[0] == (name, value));
    assert(set.drop_first() =~= vars);
}

} // verus!
