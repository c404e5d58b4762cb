use lajp_fi::signature::{PayloadVerifier, SignatureError, SignedRequest};
use lajp_fi::update::{
    Artifact, Artifacts, Outcome, Stage, UpdateAction, UpdateEvent, UpdatePayload, UpdateState,
    WorkflowRun,
};

const SECRET: &[u8] = b"topsecret";
const RELOAD_BODY: &[u8] = b"{\"workflow_run\":null}";
const RELOAD_SIGNATURE: &[u8] =
    b"sha256=a06408653f7ae4e97a601a4fdcc65e9dd5d6da55d2217a8133291f95158188cd";
const DEPLOY_BODY: &[u8] =
    b"{\"workflow_run\":{\"artifacts_url\":\"https://api.example/artifacts\"}}";
const DEPLOY_SIGNATURE: &[u8] =
    b"sha256=e050a2a56756f878ac068b6ebea1ec2833481cf938594dac0cb77fc6cfe9d853";

/// A stand-in for the host: it answers the machine from what it was given
/// and writes down what it was asked to do.
struct Host {
    payload: UpdatePayload,
    token: Option<&'static str>,
    listing: Option<Vec<&'static str>>,
    archive: Option<Vec<u8>>,
    log: Vec<String>,
    handed_on: Option<Vec<u8>>,
}

impl Host {
    fn new(payload: UpdatePayload) -> Host {
        Host {
            payload,
            token: Some("t0k3n"),
            listing: Some(vec!["https://api.example/artifacts/1/zip"]),
            archive: Some(vec![0x50, 0x4b, 3, 4]),
            log: Vec::new(),
            handed_on: None,
        }
    }

    fn perform(&mut self, action: UpdateAction, request: &SignedRequest) -> UpdateEvent {
        match action {
            UpdateAction::Verify => {
                let copy =
                    SignedRequest { body: request.body.clone(), signature: request.signature.clone() };
                match PayloadVerifier::new(SECRET.to_vec()).call(copy) {
                    Ok(body) => {
                        self.handed_on = Some(body);
                        UpdateEvent::Verified { payload: self.payload.clone() }
                    }
                    Err(reason) => UpdateEvent::Refused { reason },
                }
            }
            UpdateAction::PullSources => self.did("pull"),
            UpdateAction::ReadToken => match self.token {
                Some(token) => UpdateEvent::Token { token: token.to_string() },
                None => UpdateEvent::Failed,
            },
            UpdateAction::ListArtifacts { url, authorization, user_agent } => {
                self.log.push(format!("list {} [{}] as {}", url, authorization, user_agent));
                match &self.listing {
                    Some(urls) => UpdateEvent::Listed {
                        artifacts: Artifacts {
                            artifacts: urls
                                .iter()
                                .map(|u| Artifact { archive_download_url: u.to_string() })
                                .collect(),
                        },
                    },
                    None => UpdateEvent::TimedOut,
                }
            }
            UpdateAction::DownloadArchive { url, authorization, user_agent } => {
                self.log.push(format!("download {} [{}] as {}", url, authorization, user_agent));
                match &self.archive {
                    Some(bytes) => UpdateEvent::Downloaded { archive: bytes.clone() },
                    None => UpdateEvent::Failed,
                }
            }
            UpdateAction::StoreArchive { path, archive } => {
                self.did(&format!("store {} bytes in {}", archive.len(), path))
            }
            UpdateAction::ExtractArchive { path } => self.did(&format!("extract {}", path)),
            UpdateAction::MarkExecutable { path } => self.did(&format!("chmod {}", path)),
            UpdateAction::ReloadTemplates => self.did("reload templates"),
            UpdateAction::ReloadBlogEntries => self.did("reload blog"),
            UpdateAction::Respond { .. } | UpdateAction::Wait => unreachable!(),
        }
    }

    fn did(&mut self, what: &str) -> UpdateEvent {
        self.log.push(what.to_string());
        UpdateEvent::Done
    }

    fn serve(&mut self, request: SignedRequest) -> Outcome {
        let mut state = UpdateState::new();
        let mut event = UpdateEvent::Arrived;
        for _ in 0..20 {
            let (next, action) = state.step(event);
            state = next;
            if let UpdateAction::Respond { outcome } = action {
                assert!(state.is_at_rest());
                return outcome;
            }
            event = self.perform(action, &request);
        }
        panic!("the request was not answered");
    }
}

fn deploy_payload() -> UpdatePayload {
    UpdatePayload {
        workflow_run: Some(WorkflowRun {
            artifacts_url: "https://api.example/artifacts".to_string(),
        }),
    }
}

fn signed(body: &[u8], signature: &[u8]) -> SignedRequest {
    SignedRequest { body: body.to_vec(), signature: Some(signature.to_vec()) }
}

#[test]
fn signed_payload_without_a_run_reloads_the_caches_once() {
    let mut host = Host::new(UpdatePayload { workflow_run: None });
    let outcome = host.serve(signed(RELOAD_BODY, RELOAD_SIGNATURE));
    assert_eq!(outcome, Outcome::Reloaded);
    assert_eq!(outcome.status_code(), 200);
    assert_eq!(outcome.message(), "Update done! Reloading files now!");
    assert!(!outcome.requests_restart());
    assert_eq!(host.log, vec!["pull", "reload templates", "reload blog"]);
    assert_eq!(host.handed_on.as_deref(), Some(RELOAD_BODY));
}

#[test]
fn signed_payload_with_a_run_deploys_the_first_artifact_and_restarts() {
    let mut host = Host::new(deploy_payload());
    let outcome = host.serve(signed(DEPLOY_BODY, DEPLOY_SIGNATURE));
    assert_eq!(outcome, Outcome::Restarting);
    assert_eq!(outcome.status_code(), 200);
    assert_eq!(outcome.message(), "Update done! Restarting now!");
    assert!(outcome.requests_restart());
    assert_eq!(
        host.log,
        vec![
            "pull",
            "list https://api.example/artifacts [token t0k3n] as balls",
            "download https://api.example/artifacts/1/zip [token t0k3n] as balls",
            "store 4 bytes in build.zip",
            "extract build.zip",
            "chmod lajp_fi-rs",
        ]
    );
    assert_eq!(host.handed_on.as_deref(), Some(DEPLOY_BODY));
}

#[test]
fn unsigned_payload_is_answered_with_400_and_touches_nothing() {
    let mut host = Host::new(deploy_payload());
    let outcome = host.serve(SignedRequest { body: DEPLOY_BODY.to_vec(), signature: None });
    assert_eq!(outcome, Outcome::Rejected(SignatureError::Missing));
    assert_eq!(outcome.status_code(), 400);
    assert_eq!(outcome.message(), "No signature");
    assert!(!outcome.requests_restart());
    assert!(host.log.is_empty());
    assert_eq!(host.handed_on, None);
}

#[test]
fn payload_signed_for_another_body_is_answered_with_401_and_touches_nothing() {
    let mut host = Host::new(deploy_payload());
    let outcome = host.serve(signed(DEPLOY_BODY, RELOAD_SIGNATURE));
    assert_eq!(outcome, Outcome::Rejected(SignatureError::Invalid));
    assert_eq!(outcome.status_code(), 401);
    assert!(host.log.is_empty());
    assert_eq!(host.handed_on, None);
}

#[test]
fn run_without_artifacts_is_an_error_and_nothing_is_downloaded() {
    let mut host = Host::new(deploy_payload());
    host.listing = Some(Vec::new());
    let outcome = host.serve(signed(DEPLOY_BODY, DEPLOY_SIGNATURE));
    assert_eq!(outcome, Outcome::Failed(Stage::Select));
    assert_eq!(outcome.status_code(), 500);
    assert!(!outcome.requests_restart());
    assert_eq!(
        host.log,
        vec!["pull", "list https://api.example/artifacts [token t0k3n] as balls"]
    );
}

#[test]
fn run_with_several_artifacts_downloads_the_first_only() {
    let mut host = Host::new(deploy_payload());
    host.listing = Some(vec!["https://a/1", "https://a/2"]);
    let outcome = host.serve(signed(DEPLOY_BODY, DEPLOY_SIGNATURE));
    assert_eq!(outcome, Outcome::Restarting);
    let downloads: Vec<&String> =
        host.log.iter().filter(|line| line.starts_with("download")).collect();
    assert_eq!(downloads, vec!["download https://a/1 [token t0k3n] as balls"]);
}

#[test]
fn missing_token_stops_the_deploy_before_any_call() {
    let mut host = Host::new(deploy_payload());
    host.token = None;
    let outcome = host.serve(signed(DEPLOY_BODY, DEPLOY_SIGNATURE));
    assert_eq!(outcome, Outcome::Failed(Stage::Token));
    assert_eq!(host.log, vec!["pull"]);
}

#[test]
fn listing_that_times_out_is_answered_with_504() {
    let mut host = Host::new(deploy_payload());
    host.listing = None;
    let outcome = host.serve(signed(DEPLOY_BODY, DEPLOY_SIGNATURE));
    assert_eq!(outcome, Outcome::TimedOut(Stage::List));
    assert_eq!(outcome.status_code(), 504);
    assert!(!outcome.requests_restart());
}

#[test]
fn download_that_fails_leaves_the_binary_alone() {
    let mut host = Host::new(deploy_payload());
    host.archive = None;
    let outcome = host.serve(signed(DEPLOY_BODY, DEPLOY_SIGNATURE));
    assert_eq!(outcome, Outcome::Failed(Stage::Download));
    assert!(host.log.iter().all(|line| !line.starts_with("store")
        && !line.starts_with("extract")
        && !line.starts_with("chmod")));
}
