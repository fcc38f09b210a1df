//! Attestation verification: the request object sent to the host's
//! attestation service, and the reading of the envelope it answers with.
use vstd::prelude::*;
use vstd::string::*;

use crate::io::HostResult;
use crate::json::{quote_json, joined, lemma_joined_step, json_quoted};

verus! {

/// What the host reports of a verified attestation.
#[derive(Debug)]
pub struct AttestationOutput {
    pub raw_claims: Option<String>,
}

/// Why an attestation verification through the host failed.
#[derive(Debug)]
pub enum AttestationError {
    /// The request could not be serialized.
    BadSerialization(serde_json::Error),
    /// The host's answer could not be deserialized.
    BadDeserialization(serde_json::Error),
    /// The host reported a failure, with this message.
    AttestationFailed(String),
}

/// A platform and code measurement that the caller accepts.
#[derive(Debug)]
pub struct EnclaveMeasurement {
    pub platform: String,
    pub code: String,
}

/// One measurement as a JSON object.
pub open spec fn json_measurement(m: EnclaveMeasurement) -> Seq<char> {
    "{\"code\":"@ + json_quoted(m.code@) + ",\"platform\":"@ + json_quoted(m.platform@) + "}"@
}

/// The measurements as a JSON array, in the order given.
pub open spec fn json_measurements(ms: Seq<EnclaveMeasurement>) -> Seq<char> {
    "["@ + joined(ms.map_values(|m: EnclaveMeasurement| json_measurement(m))) + "]"@
}

/// The request object the host's attestation service takes.
pub open spec fn attestation_request_json(
    pubkey: Seq<char>,
    transitive: Seq<char>,
    ms: Seq<EnclaveMeasurement>,
) -> Seq<char> {
    "{\"acceptable_measurements\":"@ + json_measurements(ms) + ",\"enclave_attested_app_public_key\":"@
        + json_quoted(pubkey) + ",\"transitive_attestation\":"@ + json_quoted(transitive) + "}"@
}

fn measurements_json(ms: &Vec<EnclaveMeasurement>) -> (r: Result<String, serde_json::Error>)
    ensures
        r is Ok,
        r matches Ok(t) ==> t@ == json_measurements(ms@),
{
    let ghost items = ms@.map_values(|m: EnclaveMeasurement| json_measurement(m));
    let mut out = String::from_str("[");
    let mut i: usize = 0;
    while i < ms.len()
        invariant
            i <= ms@.len(),
            items == ms@.map_values(|m: EnclaveMeasurement| json_measurement(m)),
            out@ == "["@ + joined(items.subrange(0, i as int)),
        decreases ms@.len() - i,
    {
        proof {
            lemma_joined_step(items, i as int);
        }
        let code = quote_json(ms[i].code.as_str())?;
        let platform = quote_json(ms[i].platform.as_str())?;
        if i > 0 {
            out.append(",");
        }
        out.append("{\"code\":");
        out.append(code.as_str());
        out.append(",\"platform\":");
        out.append(platform.as_str());
        out.append("}");
        i = i + 1;
    }
    assert(items.subrange(0, ms@.len() as int) =~= items);
    out.append("]");
    Ok(out)
}

/// Serializes an attestation verification request for the host: the
/// enclave-attested public key, the transitive attestation and the list of
/// acceptable measurements, in the order given.
pub fn attestation_payload(
    enclave_attested_pubkey: &str,
    transitive_attestation: &str,
    acceptable_measurements: &Vec<EnclaveMeasurement>,
) -> (r: Result<String, AttestationError>)
    ensures
        r matches Ok(t) ==> t@ == attestation_request_json(
            enclave_attested_pubkey@,
            transitive_attestation@,
            acceptable_measurements@,
        ),
        r is Ok,
        r matches Err(e) ==> e is BadSerialization,
{
    let ms = match measurements_json(acceptable_measurements) {
        Ok(t) => t,
        Err(e) => {
            return Err(AttestationError::BadSerialization(e));
        },
    };
    let key = match quote_json(enclave_attested_pubkey) {
        Ok(t) => t,
        Err(e) => {
            return Err(AttestationError::BadSerialization(e));
        },
    };
    let transitive = match quote_json(transitive_attestation) {
        Ok(t) => t,
        Err(e) => {
            return Err(AttestationError::BadSerialization(e));
        },
    };
    let mut out = String::from_str("{\"acceptable_measurements\":");
    out.append(ms.as_str());
    out.append(",\"enclave_attested_app_public_key\":");
    out.append(key.as_str());
    out.append(",\"transitive_attestation\":");
    out.append(transitive.as_str());
    out.append("}");
    Ok(out)
}

/// Reads the host's answer to an attestation verification. The envelope must
/// deserialize; when it says `ok`, its value is decoded with `decode_value`,
/// and when it does not, the host's error message is returned verbatim and
/// the value is not looked at.
pub fn attestation_result<V, D>(
    response: Result<HostResult<V>, serde_json::Error>,
    decode_value: D,
) -> (r: Result<AttestationOutput, AttestationError>) where
    D: FnOnce(V) -> Result<AttestationOutput, serde_json::Error>,

    requires
        forall|v: V| decode_value.requires((v,)),
    ensures
        match response {
            Err(e) => r matches Err(AttestationError::BadDeserialization(f)) && f == e,
            Ok(h) => if h.ok {
                exists|d: Result<AttestationOutput, serde_json::Error>|
                    decode_value.ensures((h.value,), d) && match d {
                        Ok(v) => r matches Ok(w) && w == v,
                        Err(e) => r matches Err(AttestationError::BadDeserialization(f)) && f == e,
                    }
            } else {
                r matches Err(AttestationError::AttestationFailed(m)) && m == h.error
            },
        },
{
    match response {
        Err(e) => Err(AttestationError::BadDeserialization(e)),
        Ok(h) => match h.into_result() {
            Ok(v) => match decode_value(v) {
                Ok(out) => Ok(out),
                Err(e) => Err(AttestationError::BadDeserialization(e)),
            },
            Err(m) => Err(AttestationError::AttestationFailed(m)),
        },
    }
}

} // verus!
