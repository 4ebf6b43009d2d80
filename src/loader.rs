//! Choice of the chain specification to load for a chain identifier.

use vstd::prelude::*;
use crate::family::{spec_classify, NetworkFamily};
use crate::text::{spec_starts_with, starts_with, str_equal};

verus! {

/// The hard-coded specifications the node ships with.
#[derive(Clone, Copy, Debug, PartialEq, Eq, Structural)]
pub enum BuiltinSpec {
    HadronDevelopment,
    QuarkLocalTestnet,
    Staging,
    Quark,
    HadronStaging,
    Hadron,
    HadronTestnet,
}

/// Where the specification for a chain identifier comes from.
#[derive(Debug)]
pub enum SpecSource {
    /// One of the hard-coded specifications.
    Builtin(BuiltinSpec),
    /// A JSON document at this file path, read as a Quark specification.
    JsonFile(String),
}

impl BuiltinSpec {
    /// The family the specification was written for.
    pub open spec fn spec_family(self) -> NetworkFamily {
        match self {
            BuiltinSpec::QuarkLocalTestnet | BuiltinSpec::Staging | BuiltinSpec::Quark => {
                NetworkFamily::Quark
            },
            _ => NetworkFamily::Hadron,
        }
    }

    /// The identifier that the specification declares.
    pub open spec fn spec_id(self) -> Seq<char> {
        match self {
            BuiltinSpec::HadronDevelopment => "hadron_dev"@,
            BuiltinSpec::QuarkLocalTestnet => "quark_local_testnet"@,
            BuiltinSpec::Staging => "quark_staging"@,
            BuiltinSpec::Quark => "quark"@,
            BuiltinSpec::HadronStaging => "hadron_staging"@,
            BuiltinSpec::Hadron => "hadron"@,
            BuiltinSpec::HadronTestnet => "hadron_testnet"@,
        }
    }

    /// The identifier that the specification declares.
    pub fn id(&self) -> (r: &'static str)
        ensures
            r@ == self.spec_id(),
    {
        match self {
            BuiltinSpec::HadronDevelopment => "hadron_dev",
            BuiltinSpec::QuarkLocalTestnet => "quark_local_testnet",
            BuiltinSpec::Staging => "quark_staging",
            BuiltinSpec::Quark => "quark",
            BuiltinSpec::HadronStaging => "hadron_staging",
            BuiltinSpec::Hadron => "hadron",
            BuiltinSpec::HadronTestnet => "hadron_testnet",
        }
    }
}

/// The chain token chosen from the executable's file name: the first of
/// `lyr`, `quark`, `hadron` that the name starts with, else `lyr`.
pub open spec fn spec_default_token(exec_name: Seq<char>) -> Seq<char> {
    if spec_starts_with(exec_name, "lyr"@) {
        "lyr"@
    } else if spec_starts_with(exec_name, "quark"@) {
        "quark"@
    } else if spec_starts_with(exec_name, "hadron"@) {
        "hadron"@
    } else {
        "lyr"@
    }
}

/// The token actually looked up: the identifier, or when it is empty the
/// token chosen from the executable's name.
pub open spec fn spec_effective_token(id: Seq<char>, exec_name: Seq<char>) -> Seq<char> {
    if id.len() == 0 {
        spec_default_token(exec_name)
    } else {
        id
    }
}

/// The hard-coded specification a token names, if any.
pub open spec fn spec_builtin_for(token: Seq<char>) -> Option<BuiltinSpec> {
    if token == "dev"@ {
        Some(BuiltinSpec::HadronDevelopment)
    } else if token == "local"@ {
        Some(BuiltinSpec::QuarkLocalTestnet)
    } else if token == "staging"@ {
        Some(BuiltinSpec::Staging)
    } else if token == "lyr"@ || token == "quark"@ {
        Some(BuiltinSpec::Quark)
    } else if token == "hadron_staging"@ {
        Some(BuiltinSpec::HadronStaging)
    } else if token == "hadron"@ {
        Some(BuiltinSpec::Hadron)
    } else if token == "hadron_test"@ {
        Some(BuiltinSpec::HadronTestnet)
    } else {
        None
    }
}

/// `src` is what the loader yields for `token`: the hard-coded specification
/// it names, or else the token read as a file path.
pub open spec fn spec_source_for(token: Seq<char>, src: SpecSource) -> bool {
    match spec_builtin_for(token) {
        Some(b) => src == SpecSource::Builtin(b),
        None => src matches SpecSource::JsonFile(path) && path@ == token,
    }
}

/// The token chosen from the executable's file name `exec_name` (empty when
/// the name cannot be read).
pub fn default_token(exec_name: &str) -> (r: &'static str)
    ensures
        r@ == spec_default_token(exec_name@),
{
    if starts_with(exec_name, "lyr") {
        "lyr"
    } else if starts_with(exec_name, "quark") {
        "quark"
    } else if starts_with(exec_name, "hadron") {
        "hadron"
    } else {
        "lyr"
    }
}

/// The hard-coded specification that `token` names, if any.
pub fn builtin_for(token: &str) -> (r: Option<BuiltinSpec>)
    ensures
        r == spec_builtin_for(token@),
{
    if str_equal(token, "dev") {
        Some(BuiltinSpec::HadronDevelopment)
    } else if str_equal(token, "local") {
        Some(BuiltinSpec::QuarkLocalTestnet)
    } else if str_equal(token, "staging") {
        Some(BuiltinSpec::Staging)
    } else if str_equal(token, "lyr") || str_equal(token, "quark") {
        Some(BuiltinSpec::Quark)
    } else if str_equal(token, "hadron_staging") {
        Some(BuiltinSpec::HadronStaging)
    } else if str_equal(token, "hadron") {
        Some(BuiltinSpec::Hadron)
    } else if str_equal(token, "hadron_test") {
        Some(BuiltinSpec::HadronTestnet)
    } else {
        None
    }
}

/// Where to load the specification for chain identifier `id` from, with
/// `exec_name` the running executable's file name (empty when unknown).
pub fn load_spec(id: &str, exec_name: &str) -> (r: SpecSource)
    ensures
        spec_source_for(spec_effective_token(id@, exec_name@), r),
{
    let token: &str = if id.unicode_len() == 0 {
        default_token(exec_name)
    } else {
        id
    };
    match builtin_for(token) {
        Some(b) => SpecSource::Builtin(b),
        None => SpecSource::JsonFile(token.to_owned()),
    }
}

/// Each hard-coded specification declares an identifier that classifies
/// into the family it was written for.
pub proof fn lemma_builtin_family(b: BuiltinSpec)
    ensures
        spec_classify(b.spec_id()) == Some(b.spec_family()),
{
    reveal_strlit("quark");
    reveal_strlit("lyr");
    reveal_strlit("hadron");
    let id = b.spec_id();
    match b {
        BuiltinSpec::QuarkLocalTestnet => {
            reveal_strlit("quark_local_testnet");
            assert(id.subrange(0, 5) =~= "quark"@);
        },
        BuiltinSpec::Staging => {
            reveal_strlit("quark_staging");
            assert(id.subrange(0, 5) =~= "quark"@);
        },
        BuiltinSpec::Quark => {
            assert(id.subrange(0, 5) =~= "quark"@);
        },
        _ => {
            reveal_strlit("hadron_dev");
            reveal_strlit("hadron_staging");
            reveal_strlit("hadron_testnet");
            assert(id.subrange(0, 5)[0] != "quark"@[0]);
            assert(id.subrange(0, 3)[0] != "lyr"@[0]);
            assert(id.subrange(0, 6) =~= "hadron"@);
        },
    }
}

/// Every canonical token of each family, looked up whatever the executable's
/// name, loads a hard-coded specification that classifies into that family.
pub proof fn lemma_canonical_tokens_classify(exec_name: Seq<char>)
    ensures
        spec_builtin_for(spec_effective_token("lyr"@, exec_name)) == Some(BuiltinSpec::Quark),
        spec_builtin_for(spec_effective_token("quark"@, exec_name)) == Some(BuiltinSpec::Quark),
        spec_builtin_for(spec_effective_token("local"@, exec_name)) == Some(
            BuiltinSpec::QuarkLocalTestnet,
        ),
        spec_builtin_for(spec_effective_token("staging"@, exec_name)) == Some(BuiltinSpec::Staging),
        spec_builtin_for(spec_effective_token("dev"@, exec_name)) == Some(
            BuiltinSpec::HadronDevelopment,
        ),
        spec_builtin_for(spec_effective_token("hadron"@, exec_name)) == Some(BuiltinSpec::Hadron),
        spec_builtin_for(spec_effective_token("hadron_staging"@, exec_name)) == Some(
            BuiltinSpec::HadronStaging,
        ),
        spec_builtin_for(spec_effective_token("hadron_test"@, exec_name)) == Some(
            BuiltinSpec::HadronTestnet,
        ),
        spec_classify(BuiltinSpec::Quark.spec_id()) == Some(NetworkFamily::Quark),
        spec_classify(BuiltinSpec::QuarkLocalTestnet.spec_id()) == Some(NetworkFamily::Quark),
        spec_classify(BuiltinSpec::Staging.spec_id()) == Some(NetworkFamily::Quark),
        spec_classify(BuiltinSpec::HadronDevelopment.spec_id()) == Some(NetworkFamily::Hadron),
        spec_classify(BuiltinSpec::Hadron.spec_id()) == Some(NetworkFamily::Hadron),
        spec_classify(BuiltinSpec::HadronStaging.spec_id()) == Some(NetworkFamily::Hadron),
        spec_classify(BuiltinSpec::HadronTestnet.spec_id()) == Some(NetworkFamily::Hadron),
{
    reveal_strlit("lyr");
    reveal_strlit("quark");
    reveal_strlit("local");
    reveal_strlit("staging");
    reveal_strlit("dev");
    reveal_strlit("hadron");
    reveal_strlit("hadron_staging");
    reveal_strlit("hadron_test");
    assert("lyr"@[0] != "dev"@[0]);
    assert("quark"@[0] != "local"@[0]);
    lemma_builtin_family(BuiltinSpec::Quark);
    lemma_builtin_family(BuiltinSpec::QuarkLocalTestnet);
    lemma_builtin_family(BuiltinSpec::Staging);
    lemma_builtin_family(BuiltinSpec::HadronDevelopment);
    lemma_builtin_family(BuiltinSpec::Hadron);
    lemma_builtin_family(BuiltinSpec::HadronStaging);
    lemma_builtin_family(BuiltinSpec::HadronTestnet);
}

} // verus!
