use vstd::prelude::*;

use proton_srp::{SRPAuth, SRPError, SRPProofB64, SrpHashVersion};

use crate::api::AuthInfoResponse;
use crate::error::AuthError;

verus! {

#[verifier::external_type_specification]
#[verifier::external_body]
pub struct ExSrpAuth(SRPAuth);

#[verifier::external_type_specification]
#[verifier::external_body]
pub struct ExSrpError(SRPError);

/// The values one run of the password proof yields, base64 encoded as the
/// identity service carries them.
#[derive(Debug)]
pub struct SrpProofs {
    pub client_ephemeral: String,
    pub client_proof: String,
    pub expected_server_proof: String,
}

impl Clone for SrpProofs {
    fn clone(&self) -> (r: Self)
        ensures
            r == *self,
    {
        SrpProofs {
            client_ephemeral: self.client_ephemeral.clone(),
            client_proof: self.client_proof.clone(),
            expected_server_proof: self.expected_server_proof.clone(),
        }
    }
}

/// Whether `SRPAuth::with_pgp` accepts these handshake inputs: the version
/// names a password-hash version, the modulus carries a valid signature by the
/// bundled server key, and the parameters decode to the expected sizes. It
/// depends on the inputs alone.
pub uninterp spec fn srp_setup_accepted(
    username: Seq<char>,
    password: Seq<char>,
    version: int,
    salt: Seq<char>,
    modulus: Seq<char>,
    server_ephemeral: Seq<char>,
) -> bool;

/// Relies on `SrpHashVersion::try_from(u8)` to turn the version number into
/// the crate's version (0 to 4 exist, any other number is refused) and on
/// `SRPAuth::with_pgp`, which checks the signature on the modulus, decodes the
/// parameters and hashes the password.
#[verifier::external_body]
fn srp_auth(
    username: &str,
    password: &str,
    version: u8,
    salt: &str,
    modulus: &str,
    server_ephemeral: &str,
) -> (r: Result<SRPAuth, SRPError>)
    ensures
        r is Ok <==> srp_setup_accepted(
            username@,
            password@,
            version as int,
            salt@,
            modulus@,
            server_ephemeral@,
        ),
        version > 4 ==> r is Err,
{
    let version = SrpHashVersion::try_from(version)?;
    SRPAuth::with_pgp(Some(username), password, version, salt, modulus, server_ephemeral)
}

/// Relies on `SRPAuth::generate_proofs` with the crate's base64 form of the
/// proofs. The client ephemeral is random, so of the values only their shape is
/// assumed: each is the padded base64 text of 256 bytes, 344 characters.
#[verifier::external_body]
fn generate_proofs(auth: &SRPAuth) -> (r: Result<SrpProofs, SRPError>)
    ensures
        r matches Ok(p) ==> p.client_ephemeral@.len() == 344 && p.client_proof@.len() == 344
            && p.expected_server_proof@.len() == 344,
{
    let proofs: SRPProofB64 = auth.generate_proofs()?.into();
    Ok(
        SrpProofs {
            client_ephemeral: proofs.client_ephemeral,
            client_proof: proofs.client_proof,
            expected_server_proof: proofs.expected_server_proof,
        },
    )
}

/// Relies on `SRPProofB64::compare_server_proof`: a constant-time comparison of
/// the bytes of the expected and the received proof, false on differing lengths.
#[verifier::external_body]
pub(crate) fn compare_server_proof(proofs: &SrpProofs, server_proof: &str) -> (r: bool)
    ensures
        r == (proofs.expected_server_proof@ == server_proof@),
{
    let p = SRPProofB64 {
        client_ephemeral: proofs.client_ephemeral.clone(),
        client_proof: proofs.client_proof.clone(),
        expected_server_proof: proofs.expected_server_proof.clone(),
    };
    p.compare_server_proof(server_proof)
}

/// Relies on the `Debug` form of `SRPError` to describe what went wrong.
#[verifier::external_body]
fn srp_error_text(e: &SRPError) -> (r: String) {
    format!("{:?}", e)
}

/// Computes the client's ephemeral value and proof from the handshake
/// parameters and the password. A version outside the known password-hash
/// versions, or inputs the password proof does not accept, give an `Srp`
/// error; proofs come only from accepted inputs.
pub fn compute_proofs(username: &str, password: &str, info: &AuthInfoResponse) -> (r: Result<
    SrpProofs,
    AuthError,
>)
    ensures
        !(0 <= info.version <= 4) ==> r matches Err(AuthError::Srp(_)),
        !srp_setup_accepted(
            username@,
            password@,
            info.version as int,
            info.salt@,
            info.modulus@,
            info.server_ephemeral@,
        ) ==> r matches Err(AuthError::Srp(_)),
        r is Ok ==> srp_setup_accepted(
            username@,
            password@,
            info.version as int,
            info.salt@,
            info.modulus@,
            info.server_ephemeral@,
        ),
        r matches Err(e) ==> e is Srp,
{
    if info.version < 0 || info.version > 4 {
        return Err(AuthError::Srp(String::from_str("UnsupportedVersion")));
    }
    let auth = match srp_auth(
        username,
        password,
        info.version as u8,
        info.salt.as_str(),
        info.modulus.as_str(),
        info.server_ephemeral.as_str(),
    ) {
        Ok(a) => a,
        Err(e) => return Err(AuthError::Srp(srp_error_text(&e))),
    };
    match generate_proofs(&auth) {
        Ok(p) => Ok(p),
        Err(e) => Err(AuthError::Srp(srp_error_text(&e))),
    }
}

} // verus!
