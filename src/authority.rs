use vstd::prelude::*;

verus! {

/// Label of the ledger's own identity, the receipt mint's authority.
pub const MAIN_STATE_SEED: &'static str = "main_state";

/// Label of the owner of the vault's token accounts.
pub const VAULT_OWNER_SEED: &'static str = "vault_owner";

/// Label of the owner of the upstream authority's own vault.
pub const VAULT_AUTH_SEED: &'static str = "vault_authority";

/// The three signing scopes of the vault.
#[derive(Clone, Copy, Debug, PartialEq, Eq, Structural)]
pub enum AuthorityScope {
    /// The ledger's own identity: mint and freeze authority of the receipt asset.
    MainState,
    /// The owner of the vault's primary, secondary and receipt accounts.
    VaultOwner,
    /// The owner of the upstream authority's vault, derived under the upstream program.
    UpstreamVault,
}

/// The label from which a scope's identity is derived.
pub fn scope_seed(scope: AuthorityScope) -> (r: &'static str)
    ensures
        scope == AuthorityScope::MainState ==> r@ == MAIN_STATE_SEED@,
        scope == AuthorityScope::VaultOwner ==> r@ == VAULT_OWNER_SEED@,
        scope == AuthorityScope::UpstreamVault ==> r@ == VAULT_AUTH_SEED@,
{
    match scope {
        AuthorityScope::MainState => MAIN_STATE_SEED,
        AuthorityScope::VaultOwner => VAULT_OWNER_SEED,
        AuthorityScope::UpstreamVault => VAULT_AUTH_SEED,
    }
}

/// A signing capability: a scope's label together with the verification byte that
/// the host returned for it. No secret is held; the capability is rebuilt on every
/// call that signs, and only this crate can build one.
#[derive(Clone, Copy, Debug)]
pub struct VaultAuthority {
    scope: AuthorityScope,
    bump: u8,
}

impl VaultAuthority {
    pub closed spec fn spec_scope(&self) -> AuthorityScope {
        self.scope
    }

    pub closed spec fn spec_bump(&self) -> u8 {
        self.bump
    }

    /// The capability of `scope` with verification byte `bump`.
    pub closed spec fn spec_derive(scope: AuthorityScope, bump: u8) -> VaultAuthority {
        VaultAuthority { scope, bump }
    }

    /// What a rebuilt capability holds: the scope and the byte it was built from.
    pub proof fn lemma_derive(scope: AuthorityScope, bump: u8)
        ensures
            Self::spec_derive(scope, bump).spec_scope() == scope,
            Self::spec_derive(scope, bump).spec_bump() == bump,
    {
    }

    /// Rebuilds the capability of `scope` from its verification byte.
    pub(crate) fn derive(scope: AuthorityScope, bump: u8) -> (r: VaultAuthority)
        ensures
            r == Self::spec_derive(scope, bump),
            r.spec_scope() == scope,
            r.spec_bump() == bump,
    {
        VaultAuthority { scope, bump }
    }

    pub fn scope(&self) -> (r: AuthorityScope)
        ensures
            r == self.spec_scope(),
    {
        self.scope
    }

    pub fn bump(&self) -> (r: u8)
        ensures
            r == self.spec_bump(),
    {
        self.bump
    }

    /// The label of the capability's scope; with `bump` it forms the signer seeds.
    pub fn seed(&self) -> (r: &'static str)
        ensures
            r@ == scope_seed_spec(self.spec_scope()),
    {
        scope_seed(self.scope)
    }
}

pub open spec fn scope_seed_spec(scope: AuthorityScope) -> Seq<char> {
    match scope {
        AuthorityScope::MainState => MAIN_STATE_SEED@,
        AuthorityScope::VaultOwner => VAULT_OWNER_SEED@,
        AuthorityScope::UpstreamVault => VAULT_AUTH_SEED@,
    }
}

} // verus!
