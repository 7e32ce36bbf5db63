//! The dispatch service: which response a request gets, and whether a hook
//! is run for it.

use crate::config::{Config, Hook, Timeout};
use crate::registry::HookRegistry;
use crate::run::{HookRun, Phase, RunView, Verifier, VerifierView};
use crate::signature::{parse_signature_header, parsed_signature, SignatureParseError};
use crate::status::Status;
use vstd::prelude::*;

verus! {

/// The name of the header that carries a request's signature.
pub const X_HUB_SIGNATURE: &'static str = "x-hub-signature";

/// The dispatcher: the hooks and the timeout that applies to each run.
/// Nothing in it changes once it is built, so one instance serves every
/// connection.
pub struct Service {
    hooks: HookRegistry,
    timeout: Timeout,
}

/// What is done about a request.
pub enum Decision<'a> {
    /// Answer with this status and do nothing else: no process is started.
    Reject(Status),
    /// Start the process of `hook`, then follow `run`.
    Launch { hook: &'a Hook, run: HookRun },
}

/// The header value of a request as a byte string, where it has one.
pub open spec fn header_view(signature: Option<&[u8]>) -> Option<Seq<u8>> {
    match signature {
        Some(header) => Some(header@),
        None => None,
    }
}

/// A request, as far as the dispatcher reads it: its path, and the value of
/// its signature header where it has one.
pub struct Request {
    pub path: Seq<char>,
    pub signature: Option<Seq<u8>>,
}

/// The status that turns a request away on the strength of its signature
/// header alone, for a hook that may have a secret; `None` where the hook is launched.
pub open spec fn refusal(hook: Hook, signature: Option<Seq<u8>>) -> Option<Status> {
    if hook.secret is None {
        None
    } else {
        match signature {
            None => Some(Status::Unauthorized),
            Some(header) => match parsed_signature(header) {
                Err(SignatureParseError::Malformed) => Some(Status::BadRequest),
                Err(SignatureParseError::UnknownAlgorithm) => Some(Status::NotAcceptable),
                Ok(_) => None,
            },
        }
    }
}

/// What the body of a launched request is checked against: nothing where the
/// hook has no secret, and else the secret's bytes as the key, with the digest
/// that the header carries.
pub open spec fn verifier_for(hook: Hook, signature: Option<Seq<u8>>) -> Option<VerifierView> {
    match hook.secret {
        None => None,
        Some(secret) => Some(
            VerifierView {
                key: vstd::utf8::encode_utf8(secret@),
                expected: parsed_signature(signature.unwrap()).unwrap(),
            },
        ),
    }
}

impl Service {
    /// The hooks by path.
    pub closed spec fn hooks(&self) -> Map<Seq<char>, Hook> {
        self.hooks@
    }

    /// The timeout of every run.
    pub closed spec fn timeout(&self) -> Timeout {
        self.timeout
    }

    /// The dispatcher for a configuration.
    pub fn new(config: Config) -> (service: Service)
        ensures
            service.hooks() == config.hook@,
            service.timeout() == config.timeout,
    {
        Service { hooks: config.hook, timeout: config.timeout }
    }

    /// The status that turns a request away, or `None` where a hook is launched for it.
    ///
    /// A path without a hook is not found. A hook without a secret is
    /// launched whatever the header. A hook with a secret wants a header
    /// that parses; whether its digest fits the body is found out later and
    /// does not change the response.
    pub open spec fn rejection(&self, path: Seq<char>, signature: Option<Seq<u8>>) -> Option<
        Status,
    > {
        if !self.hooks().contains_key(path) {
            Some(Status::NotFound)
        } else {
            refusal(self.hooks()[path], signature)
        }
    }

    /// Whether `decision` is the one that this service takes on a request
    /// for `path` with this signature header.
    pub open spec fn decides(
        &self,
        path: Seq<char>,
        signature: Option<Seq<u8>>,
        decision: Decision,
    ) -> bool {
        match decision {
            Decision::Reject(status) => self.rejection(path, signature) == Some(status),
            Decision::Launch { hook, run } => {
                &&& self.rejection(path, signature) is None
                &&& self.hooks().contains_key(path)
                &&& *hook == self.hooks()[path]
                &&& run@ == RunView {
                    phase: Phase::Spawning,
                    verifier: verifier_for(*hook, signature),
                    timeout: self.timeout(),
                }
            },
        }
    }

    /// Decides on a request, given its path and the value of its signature
    /// header if it has one.
    pub fn call<'a>(&'a self, path: &str, signature: Option<&[u8]>) -> (decision: Decision<'a>)
        ensures
            self.decides(path@, header_view(signature), decision),
    {
        let hook = match self.hooks.lookup(path) {
            Some(hook) => hook,
            None => {
                return Decision::Reject(Status::NotFound);
            },
        };
        let verifier = match &hook.secret {
            None => None,
            Some(secret) => {
                let header = match signature {
                    Some(header) => header,
                    None => {
                        return Decision::Reject(Status::Unauthorized);
                    },
                };
                let expected = match parse_signature_header(header) {
                    Ok(expected) => expected,
                    Err(SignatureParseError::Malformed) => {
                        return Decision::Reject(Status::BadRequest);
                    },
                    Err(SignatureParseError::UnknownAlgorithm) => {
                        return Decision::Reject(Status::NotAcceptable);
                    },
                };
                let key = vstd::slice::slice_to_vec(secret.as_str().as_bytes());
                Some(Verifier { key, expected })
            },
        };
        Decision::Launch { hook, run: HookRun::new(verifier, self.timeout) }
    }

    /// How many of `requests` have a hook launched for them.
    pub open spec fn launches(&self, requests: Seq<Request>) -> nat
        decreases requests.len(),
    {
        if requests.len() == 0 {
            0
        } else {
            let last = requests.last();
            self.launches(requests.drop_last()) + if self.rejection(last.path, last.signature)
                is None {
                1nat
            } else {
                0nat
            }
        }
    }
}

/// A request for a path that has no hook is answered "not found", whatever
/// else it holds, and no process is started for it.
pub proof fn lemma_unknown_path_not_found(
    service: Service,
    path: Seq<char>,
    signature: Option<Seq<u8>>,
    decision: Decision,
)
    requires
        !service.hooks().contains_key(path),
        service.decides(path, signature, decision),
    ensures
        decision == Decision::Reject(Status::NotFound),
{
}

/// A hook without a secret is launched for every request to its path, and
/// the body of the request is then forwarded unchecked.
pub proof fn lemma_open_hook_launches(
    service: Service,
    path: Seq<char>,
    signature: Option<Seq<u8>>,
    decision: Decision,
)
    requires
        service.hooks().contains_key(path),
        service.hooks()[path].secret is None,
        service.decides(path, signature, decision),
    ensures
        decision is Launch,
        decision->run@.verifier is None,
        decision->run@.phase == Phase::Spawning,
{
}

/// A hook with a secret turns away, without starting a process, every
/// request whose signature header is missing (unauthorized), malformed (bad
/// request) or of an algorithm that is not supported (not acceptable). A
/// header that parses has the hook launched, whether or not its digest fits
/// the body: the run then checks the body against that digest, under the
/// secret as the key.
pub proof fn lemma_guarded_hook(
    service: Service,
    path: Seq<char>,
    signature: Option<Seq<u8>>,
    decision: Decision,
)
    requires
        service.hooks().contains_key(path),
        service.hooks()[path].secret is Some,
        service.decides(path, signature, decision),
    ensures
        signature is None ==> decision == Decision::Reject(Status::Unauthorized),
        signature is Some && parsed_signature(signature.unwrap()) == Err::<
            Seq<u8>,
            SignatureParseError,
        >(SignatureParseError::Malformed) ==> decision == Decision::Reject(Status::BadRequest),
        signature is Some && parsed_signature(signature.unwrap()) == Err::<
            Seq<u8>,
            SignatureParseError,
        >(SignatureParseError::UnknownAlgorithm) ==> decision == Decision::Reject(
            Status::NotAcceptable,
        ),
        signature is Some && parsed_signature(signature.unwrap()) is Ok ==> {
            &&& decision is Launch
            &&& decision->run@.phase == Phase::Spawning
            &&& decision->run@.verifier == Some(
                VerifierView {
                    key: vstd::utf8::encode_utf8(service.hooks()[path].secret.unwrap()@),
                    expected: parsed_signature(signature.unwrap()).unwrap(),
                },
            )
        },
{
}

/// The same request, sent again, is decided in the same way each time: of
/// `n` copies of a request that is not turned away, every one has a hook
/// launched, each with a run of its own that starts afresh; of `n` copies of
/// one that is turned away, none has.
pub proof fn lemma_repeated_request(service: Service, request: Request, n: nat)
    ensures
        service.launches(Seq::new(n, |i: int| request)) == if service.rejection(
            request.path,
            request.signature,
        ) is None {
            n
        } else {
            0
        },
    decreases n,
{
    if n > 0 {
        let copies = Seq::new(n, |i: int| request);
        assert(copies.drop_last() =~= Seq::new((n - 1) as nat, |i: int| request));
        assert(copies.last() == request);
        lemma_repeated_request(service, request, (n - 1) as nat);
    }
}

} // verus!
