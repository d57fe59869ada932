//! The provider's configuration and the decisions an inference call makes before and
//! after the transport.
use vstd::prelude::*;
use crate::error::{Error, PROVIDER_NAME, STREAM_ENDED_EARLY};
use crate::request::{
    all_convertible, body_of, choice_supported, failure_of, GCPVertexAnthropicRequestBody,
};
use crate::types::{ModelInferenceRequest, ProviderInferenceResponseChunk};

verus! {

/// A service-account credential; signing a token from it is the transport's concern.
#[derive(Clone, Debug, PartialEq)]
pub struct GCPCredentials {
    pub client_email: String,
    pub private_key_id: String,
    pub private_key: String,
}

/// Where and as whom the provider is called.
#[derive(Clone, Debug, PartialEq)]
pub struct GCPVertexAnthropicProvider {
    pub request_url: String,
    pub streaming_request_url: String,
    pub audience: String,
    pub credentials: Option<GCPCredentials>,
    pub model_id: String,
}

pub open spec fn body_part(
    r: Result<(GCPVertexAnthropicRequestBody, &GCPCredentials), Error>,
) -> Result<GCPVertexAnthropicRequestBody, Error> {
    match r {
        Ok((body, _)) => Ok(body),
        Err(e) => Err(e),
    }
}

impl GCPVertexAnthropicProvider {
    pub fn has_credentials(&self) -> (r: bool)
        ensures
            r == self.credentials is Some,
    {
        self.credentials.is_some()
    }

    /// The body to send for `request`, with the configured credential to sign for it.
    pub fn request_body(&self, request: &ModelInferenceRequest) -> (r: Result<
        (GCPVertexAnthropicRequestBody, &GCPCredentials),
        Error,
    >)
        ensures
            self.credentials is None ==> (r matches Err(Error::ApiKeyMissing { provider_name })
                && provider_name@ == PROVIDER_NAME@),
            self.credentials is Some ==> {
                &&& r is Ok <==> request.messages@.len() > 0 && all_convertible(*request)
                    && choice_supported(*request)
                &&& r matches Ok((body, credentials)) ==> body_of(*request, body) && self.credentials
                    == Some(*credentials)
                &&& failure_of(*request, body_part(r))
            },
    {
        let credentials = match &self.credentials {
            Some(c) => c,
            None => {
                return Err(Error::ApiKeyMissing { provider_name: PROVIDER_NAME.to_owned() });
            },
        };
        match GCPVertexAnthropicRequestBody::new(request) {
            Ok(body) => Ok((body, credentials)),
            Err(e) => Err(e),
        }
    }
}

/// The first item of a stream, which is owed before the stream is handed out: a chunk,
/// the failure it reported, or an error when the stream ended with nothing.
pub fn first_chunk(first: Option<Result<ProviderInferenceResponseChunk, Error>>) -> (r: Result<
    ProviderInferenceResponseChunk,
    Error,
>)
    ensures
        match first {
            Some(item) => r == item,
            None => r matches Err(Error::AnthropicServer { message }) && message@
                == STREAM_ENDED_EARLY@,
        },
{
    match first {
        Some(item) => item,
        None => Err(Error::AnthropicServer { message: STREAM_ENDED_EARLY.to_owned() }),
    }
}

} // verus!
