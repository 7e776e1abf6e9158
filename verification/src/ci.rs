use vstd::prelude::*;
use vstd::string::StringExecFns;
use crate::types::{CiModel, RawCIInfo};

verus! {

/// What the environment says of the build service, variable by variable; a
/// variable that is not set, or not readable as text, is `None`.
#[derive(Debug)]
pub struct CiEnv {
    pub github_actions: Option<String>,
    pub github_server_url: Option<String>,
    pub github_repository: Option<String>,
    pub github_run_id: Option<String>,
    pub github_run_number: Option<String>,
    pub circleci: Option<String>,
    pub circle_build_num: Option<String>,
    pub circle_build_url: Option<String>,
    pub jenkins_url: Option<String>,
    pub build_number: Option<String>,
    pub build_url: Option<String>,
    pub travis: Option<String>,
    pub travis_build_number: Option<String>,
    pub travis_build_web_url: Option<String>,
    pub gitlab_ci: Option<String>,
    pub ci_pipeline_iid: Option<String>,
    pub ci_pipeline_url: Option<String>,
    pub ci: Option<String>,
}

/// What a `CiEnv` stands for.
pub struct CiEnvModel {
    pub github_actions: Option<Seq<char>>,
    pub github_server_url: Option<Seq<char>>,
    pub github_repository: Option<Seq<char>>,
    pub github_run_id: Option<Seq<char>>,
    pub github_run_number: Option<Seq<char>>,
    pub circleci: Option<Seq<char>>,
    pub circle_build_num: Option<Seq<char>>,
    pub circle_build_url: Option<Seq<char>>,
    pub jenkins_url: Option<Seq<char>>,
    pub build_number: Option<Seq<char>>,
    pub build_url: Option<Seq<char>>,
    pub travis: Option<Seq<char>>,
    pub travis_build_number: Option<Seq<char>>,
    pub travis_build_web_url: Option<Seq<char>>,
    pub gitlab_ci: Option<Seq<char>>,
    pub ci_pipeline_iid: Option<Seq<char>>,
    pub ci_pipeline_url: Option<Seq<char>>,
    pub ci: Option<Seq<char>>,
}

impl View for CiEnv {
    type V = CiEnvModel;

    open spec fn view(&self) -> CiEnvModel {
        CiEnvModel {
            github_actions: self.github_actions.deep_view(),
            github_server_url: self.github_server_url.deep_view(),
            github_repository: self.github_repository.deep_view(),
            github_run_id: self.github_run_id.deep_view(),
            github_run_number: self.github_run_number.deep_view(),
            circleci: self.circleci.deep_view(),
            circle_build_num: self.circle_build_num.deep_view(),
            circle_build_url: self.circle_build_url.deep_view(),
            jenkins_url: self.jenkins_url.deep_view(),
            build_number: self.build_number.deep_view(),
            build_url: self.build_url.deep_view(),
            travis: self.travis.deep_view(),
            travis_build_number: self.travis_build_number.deep_view(),
            travis_build_web_url: self.travis_build_web_url.deep_view(),
            gitlab_ci: self.gitlab_ci.deep_view(),
            ci_pipeline_iid: self.ci_pipeline_iid.deep_view(),
            ci_pipeline_url: self.ci_pipeline_url.deep_view(),
            ci: self.ci.deep_view(),
        }
    }
}

/// A marker variable counts only if it is set to the word `true`.
pub open spec fn says_true(value: Option<Seq<char>>) -> bool {
    value == Some("true"@)
}

/// The address of a run on GitHub: server, repository and run id, put
/// together; none unless all three are there.
pub open spec fn github_url(e: CiEnvModel) -> Option<Seq<char>> {
    if e.github_server_url is Some && e.github_repository is Some && e.github_run_id is Some {
        Some(
            e.github_server_url->0 + "/"@ + e.github_repository->0 + "/actions/runs/"@
                + e.github_run_id->0,
        )
    } else {
        None
    }
}

/// The build service that an environment speaks of. The services are asked
/// in a fixed order, the first that is marked wins, and the bare marker `CI`
/// comes last, with a name only. No marker, no build service.
pub open spec fn detected(e: CiEnvModel) -> Option<CiModel> {
    if says_true(e.github_actions) {
        Some(CiModel { name: "github"@, url: github_url(e), build_number: e.github_run_number })
    } else if says_true(e.circleci) {
        Some(
            CiModel { name: "circleci"@, url: e.circle_build_url, build_number: e.circle_build_num },
        )
    } else if e.jenkins_url is Some {
        Some(CiModel { name: "jenkins"@, url: e.build_url, build_number: e.build_number })
    } else if says_true(e.travis) {
        Some(
            CiModel {
                name: "travis"@,
                url: e.travis_build_web_url,
                build_number: e.travis_build_number,
            },
        )
    } else if says_true(e.gitlab_ci) {
        Some(CiModel { name: "gitlab"@, url: e.ci_pipeline_url, build_number: e.ci_pipeline_iid })
    } else if says_true(e.ci) {
        Some(CiModel { name: "ci"@, url: None, build_number: None })
    } else {
        None
    }
}

fn is_true(value: &Option<String>) -> (r: bool)
    ensures
        r == says_true(value.deep_view()),
{
    match value {
        Some(v) => v.as_str().eq("true"),
        None => false,
    }
}

fn copy_of(value: &Option<String>) -> (r: Option<String>)
    ensures
        r.deep_view() == value.deep_view(),
{
    match value {
        Some(v) => Some(v.clone()),
        None => None,
    }
}

fn github_run_url(env: &CiEnv) -> (r: Option<String>)
    ensures
        r.deep_view() == github_url(env@),
{
    match (&env.github_server_url, &env.github_repository, &env.github_run_id) {
        (Some(server), Some(repository), Some(run)) => {
            let mut url = server.clone();
            url.append("/");
            url.append(repository.as_str());
            url.append("/actions/runs/");
            url.append(run.as_str());
            Some(url)
        },
        _ => None,
    }
}

/// Finds the build service that the environment speaks of.
pub fn detect_ci(env: &CiEnv) -> (r: Option<RawCIInfo>)
    ensures
        r.deep_view() == detected(env@),
{
    if is_true(&env.github_actions) {
        return Some(
            RawCIInfo {
                name: "github".to_string(),
                build_number: copy_of(&env.github_run_number),
                url: github_run_url(env),
            },
        );
    }
    if is_true(&env.circleci) {
        return Some(
            RawCIInfo {
                name: "circleci".to_string(),
                build_number: copy_of(&env.circle_build_num),
                url: copy_of(&env.circle_build_url),
            },
        );
    }
    if env.jenkins_url.is_some() {
        return Some(
            RawCIInfo {
                name: "jenkins".to_string(),
                build_number: copy_of(&env.build_number),
                url: copy_of(&env.build_url),
            },
        );
    }
    if is_true(&env.travis) {
        return Some(
            RawCIInfo {
                name: "travis".to_string(),
                build_number: copy_of(&env.travis_build_number),
                url: copy_of(&env.travis_build_web_url),
            },
        );
    }
    if is_true(&env.gitlab_ci) {
        return Some(
            RawCIInfo {
                name: "gitlab".to_string(),
                build_number: copy_of(&env.ci_pipeline_iid),
                url: copy_of(&env.ci_pipeline_url),
            },
        );
    }
    if is_true(&env.ci) {
        return Some(RawCIInfo { name: "ci".to_string(), build_number: None, url: None });
    }
    None
}

} // verus!
