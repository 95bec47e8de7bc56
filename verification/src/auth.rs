use vstd::prelude::*;
use vstd::pervasive::arbitrary;
use vstd::pervasive::unreached;
use crate::identity::Identity;
use crate::identity::Ed25519Sig;
use crate::identity::lex_lt;
use crate::identity::identity_lt;
use crate::messages::TicTacToeMessage;
use crate::messages::spec_serialize;
use crate::messages::serialize_message;

verus! {

/// Why an authorization proof was rejected.
#[derive(Clone, Copy, Debug, PartialEq, Eq, Structural)]
pub enum AuthError {
    InvalidSignature,
    DuplicateOrUnorderedSigner,
    UnknownSigner,
    WeightOverflow,
    InsufficientWeight,
}

/// One (signer public key, signature) pair.
#[derive(Clone, Copy, Debug)]
pub struct KeyedEd25519Signature {
    pub public_key: Identity,
    pub signature: Ed25519Sig,
}

/// A multi-signer authorization: the account identity whose metadata governs
/// the check, plus the supplied (signer, signature) list in the order it was
/// submitted.
#[derive(Clone, Debug)]
pub struct KeyedAccountAuthorization {
    pub public_key: Identity,
    pub signatures: Vec<KeyedEd25519Signature>,
}

/// How a caller claims to be authorized.
#[derive(Clone, Debug)]
pub enum AuthorizationProof {
    /// Whoever is directly invoking the operation, as asserted by the host.
    Invoker,
    /// One public key with a signature over the message.
    SingleKey(KeyedEd25519Signature),
    /// A weighted multi-signer account.
    MultiKey(KeyedAccountAuthorization),
}

/// One row of an account's signer table.
#[derive(Clone, Copy, Debug)]
pub struct SignerWeight {
    pub signer: Identity,
    pub weight: u32,
}

/// An account's externally supplied metadata: its signer weights and the
/// minimum accumulated weight a proof must reach.
#[derive(Clone, Debug)]
pub struct AccountMetadata {
    pub signers: Vec<SignerWeight>,
    pub threshold: u32,
}

/// Account metadata registered under an account identity.
#[derive(Clone, Debug)]
pub struct AccountEntry {
    pub account: Identity,
    pub metadata: AccountMetadata,
}

/// What the host supplies to the authorization check: the identity of the
/// direct caller and the metadata of the known multi-signer accounts.
#[derive(Clone, Debug)]
pub struct HostEnv {
    pub invoker: Identity,
    pub accounts: Vec<AccountEntry>,
}

/// Whether the Ed25519 signature `signature` by `public_key` over `message`
/// verifies. The outcome depends on the three byte strings alone.
pub uninterp spec fn ed25519_verifies(public_key: Seq<u8>, message: Seq<u8>, signature: Seq<u8>) -> bool;

/// Relies on `ed25519_dalek::VerifyingKey::verify_strict`, with
/// `VerifyingKey::from_bytes` and `Signature::from_bytes` decoding the raw
/// bytes: verification is a deterministic function of the key bytes, the
/// message bytes and the signature bytes, and a key that does not decode to a
/// curve point verifies nothing.
#[verifier::external_body]
fn verify_ed25519(public_key: &Identity, message: &Vec<u8>, signature: &Ed25519Sig) -> (r: bool)
    ensures
        r == ed25519_verifies(public_key@, message@, signature@),
{
    match ed25519_dalek::VerifyingKey::from_bytes(&public_key.bytes) {
        Ok(key) => {
            let sig = ed25519_dalek::Signature::from_bytes(&signature.bytes);
            key.verify_strict(message.as_slice(), &sig).is_ok()
        }
        Err(_) => false,
    }
}

/// The weight the account configured for `signer`: the first matching row of
/// the signer table, or `None` for a signer the account does not know.
pub open spec fn spec_signer_weight(signers: Seq<SignerWeight>, signer: Seq<u8>) -> Option<u32>
    decreases signers.len(),
{
    if signers.len() == 0 {
        Option::None
    } else if signers[0].signer@ == signer {
        Option::Some(signers[0].weight)
    } else {
        spec_signer_weight(signers.skip(1), signer)
    }
}

fn find_signer_weight(signers: &Vec<SignerWeight>, signer: &Identity) -> (r: Option<u32>)
    ensures
        r == spec_signer_weight(signers@, signer@),
{
    let n = signers.len();
    let mut i: usize = 0;
    proof {
        assert(signers@.skip(0) =~= signers@);
    }
    while i < n
        invariant
            i <= n,
            n == signers@.len(),
            spec_signer_weight(signers@, signer@) == spec_signer_weight(
                signers@.skip(i as int),
                signer@,
            ),
        decreases n - i,
    {
        proof {
            assert(signers@.skip(i as int)[0] == signers@[i as int]);
            assert(signers@.skip(i as int).skip(1) =~= signers@.skip(i as int + 1));
        }
        if signers[i].signer == *signer {
            return Some(signers[i].weight);
        }
        i = i + 1;
    }
    None
}

/// The metadata registered for `account`, or `None` for an unknown account.
pub open spec fn spec_account_lookup(accounts: Seq<AccountEntry>, account: Seq<u8>) -> Option<
    AccountMetadata,
>
    decreases accounts.len(),
{
    if accounts.len() == 0 {
        Option::None
    } else if accounts[0].account@ == account {
        Option::Some(accounts[0].metadata)
    } else {
        spec_account_lookup(accounts.skip(1), account)
    }
}

/// The metadata of a known account.
pub open spec fn resolved_metadata(env: HostEnv, account: Identity) -> AccountMetadata
    recommends
        spec_account_lookup(env.accounts@, account@) is Some,
{
    match spec_account_lookup(env.accounts@, account@) {
        Option::Some(m) => m,
        Option::None => arbitrary(),
    }
}

fn find_account<'a>(accounts: &'a Vec<AccountEntry>, account: &Identity) -> (r: &'a AccountMetadata)
    requires
        spec_account_lookup(accounts@, account@) is Some,
    ensures
        Option::Some(*r) == spec_account_lookup(accounts@, account@),
{
    let n = accounts.len();
    let mut i: usize = 0;
    proof {
        assert(accounts@.skip(0) =~= accounts@);
    }
    while i < n
        invariant
            i <= n,
            n == accounts@.len(),
            spec_account_lookup(accounts@, account@) == spec_account_lookup(
                accounts@.skip(i as int),
                account@,
            ),
        decreases n - i,
    {
        proof {
            assert(accounts@.skip(i as int)[0] == accounts@[i as int]);
            assert(accounts@.skip(i as int).skip(1) =~= accounts@.skip(i as int + 1));
        }
        if accounts[i].account == *account {
            return &accounts[i].metadata;
        }
        i = i + 1;
    }
    proof {
        assert(accounts@.skip(n as int).len() == 0);
    }
    unreached()
}

/// The outcome of checking a multi-signer list, one (signer, signature) pair
/// at a time: `prev` is the previous signer (each signer must be strictly
/// above it in `lex_lt` order, which rejects duplicates and double-counting)
/// and `acc` the weight accumulated so far. A failed signature aborts with
/// `InvalidSignature`, a signer missing from the table with `UnknownSigner`,
/// an accumulation past `u32::MAX` with `WeightOverflow`; at the end the
/// accumulated weight must reach the account's threshold.
pub open spec fn spec_check_multi(
    meta: AccountMetadata,
    msg_bytes: Seq<u8>,
    sigs: Seq<KeyedEd25519Signature>,
    prev: Option<Identity>,
    acc: u32,
) -> Result<(), AuthError>
    decreases sigs.len(),
{
    if sigs.len() == 0 {
        if acc < meta.threshold {
            Result::Err(AuthError::InsufficientWeight)
        } else {
            Result::Ok(())
        }
    } else {
        let s = sigs[0];
        let in_order = match prev {
            Option::None => true,
            Option::Some(p) => lex_lt(p@, s.public_key@),
        };
        if !in_order {
            Result::Err(AuthError::DuplicateOrUnorderedSigner)
        } else if !ed25519_verifies(s.public_key@, msg_bytes, s.signature@) {
            Result::Err(AuthError::InvalidSignature)
        } else {
            match spec_signer_weight(meta.signers@, s.public_key@) {
                Option::None => Result::Err(AuthError::UnknownSigner),
                Option::Some(w) => if acc + w > u32::MAX {
                    Result::Err(AuthError::WeightOverflow)
                } else {
                    spec_check_multi(
                        meta,
                        msg_bytes,
                        sigs.skip(1),
                        Option::Some(s.public_key),
                        (acc + w) as u32,
                    )
                },
            }
        }
    }
}

fn check_ed25519_auth(auth: &KeyedEd25519Signature, msg: &TicTacToeMessage) -> (r: Result<
    (),
    AuthError,
>)
    ensures
        r == (if ed25519_verifies(auth.public_key@, spec_serialize(*msg), auth.signature@) {
            Result::<(), AuthError>::Ok(())
        } else {
            Result::<(), AuthError>::Err(AuthError::InvalidSignature)
        }),
{
    let msg_bin = serialize_message(msg);
    if verify_ed25519(&auth.public_key, &msg_bin, &auth.signature) {
        Ok(())
    } else {
        Err(AuthError::InvalidSignature)
    }
}

fn check_account_auth(env: &HostEnv, auth: &KeyedAccountAuthorization, msg: &TicTacToeMessage) -> (r:
    Result<(), AuthError>)
    requires
        spec_account_lookup(env.accounts@, auth.public_key@) is Some,
    ensures
        r == spec_check_multi(
            resolved_metadata(*env, auth.public_key),
            spec_serialize(*msg),
            auth.signatures@,
            Option::<Identity>::None,
            0,
        ),
{
    let meta = find_account(&env.accounts, &auth.public_key);
    let msg_bin = serialize_message(msg);

    let ghost sigs = auth.signatures@;
    let n = auth.signatures.len();
    let mut weight: u32 = 0;
    let mut prev: Option<Identity> = None;
    let mut i: usize = 0;
    proof {
        assert(sigs.skip(0) =~= sigs);
    }
    while i < n
        invariant
            i <= n,
            n == sigs.len(),
            sigs == auth.signatures@,
            spec_check_multi(*meta, msg_bin@, sigs, Option::<Identity>::None, 0)
                == spec_check_multi(*meta, msg_bin@, sigs.skip(i as int), prev, weight),
            msg_bin@ == spec_serialize(*msg),
            Option::Some(*meta) == spec_account_lookup(env.accounts@, auth.public_key@),
        decreases n - i,
    {
        proof {
            assert(sigs.skip(i as int)[0] == sigs[i as int]);
            assert(sigs.skip(i as int).skip(1) =~= sigs.skip(i as int + 1));
        }
        let sig = auth.signatures[i];
        let in_order = match &prev {
            None => true,
            Some(p) => identity_lt(p, &sig.public_key),
        };
        if !in_order {
            return Err(AuthError::DuplicateOrUnorderedSigner);
        }
        if !verify_ed25519(&sig.public_key, &msg_bin, &sig.signature) {
            return Err(AuthError::InvalidSignature);
        }
        match find_signer_weight(&meta.signers, &sig.public_key) {
            None => {
                return Err(AuthError::UnknownSigner);
            }
            Some(w) => {
                if weight > u32::MAX - w {
                    return Err(AuthError::WeightOverflow);
                }
                weight = weight + w;
            }
        }
        prev = Some(sig.public_key);
        i = i + 1;
    }
    if weight < meta.threshold {
        Err(AuthError::InsufficientWeight)
    } else {
        Ok(())
    }
}

/// The identity a proof speaks for: the host-asserted caller for `Invoker`,
/// the signing key for `SingleKey`, the account identity for `MultiKey`.
pub open spec fn spec_identity_of(env: HostEnv, auth: AuthorizationProof) -> Identity {
    match auth {
        AuthorizationProof::Invoker => env.invoker,
        AuthorizationProof::SingleKey(k) => k.public_key,
        AuthorizationProof::MultiKey(a) => a.public_key,
    }
}

/// A proof the check can resolve: a `MultiKey` proof must name a known
/// account; the other variants need nothing from the account table.
pub open spec fn account_resolvable(env: HostEnv, auth: AuthorizationProof) -> bool {
    match auth {
        AuthorizationProof::MultiKey(a) => spec_account_lookup(env.accounts@, a.public_key@)
            is Some,
        _ => true,
    }
}

/// The outcome of checking one authorization proof against a message.
/// `Invoker` carries the host's own assertion and always passes; `SingleKey`
/// passes exactly when its signature verifies over the serialized message;
/// `MultiKey` runs the weighted multi-signer check against the account's
/// metadata.
pub open spec fn spec_check_auth(
    env: HostEnv,
    auth: AuthorizationProof,
    msg: TicTacToeMessage,
) -> Result<(), AuthError> {
    match auth {
        AuthorizationProof::Invoker => Result::Ok(()),
        AuthorizationProof::SingleKey(k) => if ed25519_verifies(
            k.public_key@,
            spec_serialize(msg),
            k.signature@,
        ) {
            Result::Ok(())
        } else {
            Result::Err(AuthError::InvalidSignature)
        },
        AuthorizationProof::MultiKey(a) => spec_check_multi(
            resolved_metadata(env, a.public_key),
            spec_serialize(msg),
            a.signatures@,
            Option::<Identity>::None,
            0,
        ),
    }
}

/// Resolves `auth` to a verified claim on `msg`, or says why it fails.
pub fn check_auth(env: &HostEnv, auth: &AuthorizationProof, msg: &TicTacToeMessage) -> (r: Result<
    (),
    AuthError,
>)
    requires
        account_resolvable(*env, *auth),
    ensures
        r == spec_check_auth(*env, *auth, *msg),
{
    match auth {
        AuthorizationProof::Invoker => Ok(()),
        AuthorizationProof::SingleKey(k) => check_ed25519_auth(k, msg),
        AuthorizationProof::MultiKey(a) => check_account_auth(env, a, msg),
    }
}

/// Resolving a proof to the identity it speaks for.
pub trait PublicKeyTrait {
    /// The identity the proof speaks for, given the host environment.
    spec fn spec_public_key(&self, env: HostEnv) -> Identity;

    /// Returns the identity the proof speaks for.
    fn get_public_key(&self, env: &HostEnv) -> (r: Identity)
        ensures
            r == self.spec_public_key(*env),
    ;
}

/// The supplied signer list climbs strictly in `lex_lt` order from each
/// entry to the next.
pub open spec fn signers_ordered(sigs: Seq<KeyedEd25519Signature>) -> bool {
    forall|i: int|
        #![trigger sigs[i]]
        0 <= i && i + 1 < sigs.len() ==> lex_lt(sigs[i].public_key@, sigs[i + 1].public_key@)
}

/// Every supplied signature verifies over the message.
pub open spec fn all_signatures_valid(msg_bytes: Seq<u8>, sigs: Seq<KeyedEd25519Signature>) -> bool {
    forall|i: int|
        0 <= i < sigs.len() ==> ed25519_verifies(sigs[i].public_key@, msg_bytes, sigs[i].signature@)
}

/// Every supplied signer has a row in the account's signer table.
pub open spec fn all_signers_known(meta: AccountMetadata, sigs: Seq<KeyedEd25519Signature>) -> bool {
    forall|i: int|
        0 <= i < sigs.len() ==> spec_signer_weight(meta.signers@, sigs[i].public_key@) is Some
}

/// The configured weight of one signer, counting an unknown signer as zero.
pub open spec fn weight_of(meta: AccountMetadata, signer: Seq<u8>) -> int {
    match spec_signer_weight(meta.signers@, signer) {
        Option::Some(w) => w as int,
        Option::None => 0,
    }
}

/// The exact sum of the supplied signers' configured weights.
pub open spec fn total_weight(meta: AccountMetadata, sigs: Seq<KeyedEd25519Signature>) -> int
    decreases sigs.len(),
{
    if sigs.len() == 0 {
        0
    } else {
        weight_of(meta, sigs[0].public_key@) + total_weight(meta, sigs.skip(1))
    }
}

proof fn lemma_total_weight_nonneg(meta: AccountMetadata, sigs: Seq<KeyedEd25519Signature>)
    ensures
        total_weight(meta, sigs) >= 0,
    decreases sigs.len(),
{
    if sigs.len() > 0 {
        lemma_total_weight_nonneg(meta, sigs.skip(1));
    }
}

proof fn lemma_multi_ok_general(
    meta: AccountMetadata,
    msg_bytes: Seq<u8>,
    sigs: Seq<KeyedEd25519Signature>,
    prev: Option<Identity>,
    acc: u32,
)
    requires
        all_signatures_valid(msg_bytes, sigs),
        all_signers_known(meta, sigs),
        signers_ordered(sigs),
        sigs.len() > 0 ==> (prev matches Option::Some(p) ==> lex_lt(p@, sigs[0].public_key@)),
        acc + total_weight(meta, sigs) <= u32::MAX,
    ensures
        spec_check_multi(meta, msg_bytes, sigs, prev, acc) == (if acc + total_weight(meta, sigs)
            < meta.threshold {
            Result::<(), AuthError>::Err(AuthError::InsufficientWeight)
        } else {
            Result::<(), AuthError>::Ok(())
        }),
    decreases sigs.len(),
{
    if sigs.len() > 0 {
        let s = sigs[0];
        let rest = sigs.skip(1);
        lemma_total_weight_nonneg(meta, rest);
        assert(all_signatures_valid(msg_bytes, rest)) by {
            assert forall|i: int| 0 <= i < rest.len() implies ed25519_verifies(
                rest[i].public_key@,
                msg_bytes,
                rest[i].signature@,
            ) by {
                assert(rest[i] == sigs[i + 1]);
            }
        }
        assert(all_signers_known(meta, rest)) by {
            assert forall|i: int| 0 <= i < rest.len() implies spec_signer_weight(
                meta.signers@,
                rest[i].public_key@,
            ) is Some by {
                assert(rest[i] == sigs[i + 1]);
            }
        }
        assert(signers_ordered(rest)) by {
            assert forall|i: int| #![trigger rest[i]] 0 <= i && i + 1 < rest.len() implies lex_lt(
                rest[i].public_key@,
                rest[i + 1].public_key@,
            ) by {
                assert(rest[i] == sigs[i + 1]);
                assert(rest[i + 1] == sigs[i + 2]);
            }
        }
        let w = spec_signer_weight(meta.signers@, s.public_key@)->0;
        lemma_multi_ok_general(meta, msg_bytes, rest, Option::Some(s.public_key), (acc + w) as u32);
    }
}

proof fn lemma_multi_unordered_general(
    meta: AccountMetadata,
    msg_bytes: Seq<u8>,
    sigs: Seq<KeyedEd25519Signature>,
    prev: Option<Identity>,
    acc: u32,
)
    requires
        all_signatures_valid(msg_bytes, sigs),
        all_signers_known(meta, sigs),
        acc + total_weight(meta, sigs) <= u32::MAX,
        !signers_ordered(sigs) || (prev matches Option::Some(p) && sigs.len() > 0 && !lex_lt(
            p@,
            sigs[0].public_key@,
        )),
    ensures
        spec_check_multi(meta, msg_bytes, sigs, prev, acc) == Result::<(), AuthError>::Err(
            AuthError::DuplicateOrUnorderedSigner,
        ),
    decreases sigs.len(),
{
    let head_violation = prev matches Option::Some(p) && sigs.len() > 0 && !lex_lt(
        p@,
        sigs[0].public_key@,
    );
    if !head_violation {
        assert(!signers_ordered(sigs));
        let v = choose|i: int|
            #![trigger sigs[i]]
            0 <= i && i + 1 < sigs.len() && !lex_lt(sigs[i].public_key@, sigs[i + 1].public_key@);
        let s = sigs[0];
        let rest = sigs.skip(1);
        lemma_total_weight_nonneg(meta, rest);
        assert(all_signatures_valid(msg_bytes, rest)) by {
            assert forall|i: int| 0 <= i < rest.len() implies ed25519_verifies(
                rest[i].public_key@,
                msg_bytes,
                rest[i].signature@,
            ) by {
                assert(rest[i] == sigs[i + 1]);
            }
        }
        assert(all_signers_known(meta, rest)) by {
            assert forall|i: int| 0 <= i < rest.len() implies spec_signer_weight(
                meta.signers@,
                rest[i].public_key@,
            ) is Some by {
                assert(rest[i] == sigs[i + 1]);
            }
        }
        if v == 0 {
            assert(rest[0] == sigs[1]);
        } else {
            assert(rest[v - 1] == sigs[v]);
            assert(rest[v] == sigs[v + 1]);
            assert(!signers_ordered(rest));
        }
        let w = spec_signer_weight(meta.signers@, s.public_key@)->0;
        lemma_multi_unordered_general(
            meta,
            msg_bytes,
            rest,
            Option::Some(s.public_key),
            (acc + w) as u32,
        );
    }
}

/// A multi-signer list supplied out of strictly increasing signer order is
/// rejected with `DuplicateOrUnorderedSigner`, even when every signature
/// verifies, every signer is known and the weights cannot overflow.
pub proof fn lemma_multi_auth_rejects_unordered(
    meta: AccountMetadata,
    msg_bytes: Seq<u8>,
    sigs: Seq<KeyedEd25519Signature>,
)
    requires
        all_signatures_valid(msg_bytes, sigs),
        all_signers_known(meta, sigs),
        total_weight(meta, sigs) <= u32::MAX,
        !signers_ordered(sigs),
    ensures
        spec_check_multi(meta, msg_bytes, sigs, Option::<Identity>::None, 0) == Result::<
            (),
            AuthError,
        >::Err(AuthError::DuplicateOrUnorderedSigner),
{
    lemma_multi_unordered_general(meta, msg_bytes, sigs, Option::<Identity>::None, 0);
}

/// A list that repeats a signer in adjacent positions is out of order — a
/// signer's weight can never be counted twice — so it is rejected with
/// `DuplicateOrUnorderedSigner`.
pub proof fn lemma_multi_auth_rejects_duplicate(
    meta: AccountMetadata,
    msg_bytes: Seq<u8>,
    sigs: Seq<KeyedEd25519Signature>,
    i: int,
)
    requires
        all_signatures_valid(msg_bytes, sigs),
        all_signers_known(meta, sigs),
        total_weight(meta, sigs) <= u32::MAX,
        0 <= i && i + 1 < sigs.len(),
        sigs[i].public_key@ == sigs[i + 1].public_key@,
    ensures
        spec_check_multi(meta, msg_bytes, sigs, Option::<Identity>::None, 0) == Result::<
            (),
            AuthError,
        >::Err(AuthError::DuplicateOrUnorderedSigner),
{
    crate::identity::lemma_lex_lt_irreflexive(sigs[i].public_key@);
    lemma_multi_auth_rejects_unordered(meta, msg_bytes, sigs);
}

/// A correctly ordered list of verifying signatures by known signers is
/// accepted exactly when the accumulated weight reaches the account's
/// threshold; below the threshold it is rejected with `InsufficientWeight`.
pub proof fn lemma_multi_auth_threshold(
    meta: AccountMetadata,
    msg_bytes: Seq<u8>,
    sigs: Seq<KeyedEd25519Signature>,
)
    requires
        all_signatures_valid(msg_bytes, sigs),
        all_signers_known(meta, sigs),
        signers_ordered(sigs),
        total_weight(meta, sigs) <= u32::MAX,
    ensures
        spec_check_multi(meta, msg_bytes, sigs, Option::<Identity>::None, 0) == (if total_weight(
            meta,
            sigs,
        ) < meta.threshold {
            Result::<(), AuthError>::Err(AuthError::InsufficientWeight)
        } else {
            Result::<(), AuthError>::Ok(())
        }),
{
    lemma_multi_ok_general(meta, msg_bytes, sigs, Option::<Identity>::None, 0);
}

impl PublicKeyTrait for AuthorizationProof {
    open spec fn spec_public_key(&self, env: HostEnv) -> Identity {
        spec_identity_of(env, *self)
    }

    fn get_public_key(&self, env: &HostEnv) -> (r: Identity) {
        match self {
            AuthorizationProof::Invoker => env.invoker,
            AuthorizationProof::SingleKey(k) => k.public_key,
            AuthorizationProof::MultiKey(a) => a.public_key,
        }
    }
}

} // verus!
