//! The plan that the language model answers with, and its acceptance rule.
use vstd::prelude::*;
use vstd::string::StringExecFns;
use vstd::string::to_string_from_display_ensures;

verus! {

#[verifier::external_type_specification]
#[verifier::external_body]
pub struct ExJsonError(serde_json::Error);

/// One service that the plan switches on or off.
#[derive(Debug, Clone)]
pub struct NixService {
    pub name: String,
    pub enabled: bool,
}

/// Packages to install and services to configure.
#[derive(Debug, Clone)]
pub struct NixPlan {
    pub packages: Vec<String>,
    pub services: Vec<NixService>,
}

/// The model of a [`NixService`].
pub struct ServiceModel {
    pub name: Seq<char>,
    pub enabled: bool,
}

/// The model of a [`NixPlan`].
pub struct PlanModel {
    pub packages: Seq<Seq<char>>,
    pub services: Seq<ServiceModel>,
}

impl View for NixService {
    type V = ServiceModel;

    open spec fn view(&self) -> ServiceModel {
        ServiceModel { name: self.name@, enabled: self.enabled }
    }
}

impl View for NixPlan {
    type V = PlanModel;

    open spec fn view(&self) -> PlanModel {
        PlanModel {
            packages: self.packages@.map_values(|p: String| p@),
            services: self.services@.map_values(|s: NixService| s@),
        }
    }
}

/// A plan is acceptable when it names at least one package or service.
pub open spec fn plan_is_empty(plan: PlanModel) -> bool {
    plan.packages.len() == 0 && plan.services.len() == 0
}

/// The value a service's `enabled` flag takes when the plan leaves it out.
pub fn default_enabled() -> (res: bool)
    ensures
        res == true,
{
    true
}

/// Why the model's answer could not be used.
#[derive(Debug)]
pub enum ParseError {
    /// The answer is not a JSON plan.
    Json(serde_json::Error),
    /// The plan names neither packages nor services.
    EmptyPlan,
}

impl From<serde_json::Error> for ParseError {
    fn from(e: serde_json::Error) -> (res: ParseError) {
        ParseError::Json(e)
    }
}

impl vstd::std_specs::convert::FromSpecImpl<serde_json::Error> for ParseError {
    open spec fn obeys_from_spec() -> bool {
        true
    }

    open spec fn from_spec(e: serde_json::Error) -> ParseError {
        ParseError::Json(e)
    }
}

impl ParseError {
    /// The human-readable text of the error.
    pub fn message(&self) -> (res: String)
        ensures
            match self {
                ParseError::Json(e) => exists|t: String|
                    to_string_from_display_ensures::<serde_json::Error>(e, t)
                        && res@ == "JSON parse error: "@ + t@,
                ParseError::EmptyPlan => res@ == "LLM returned empty plan: no packages or services"@,
            },
    {
        match self {
            ParseError::Json(e) => {
                let detail = e.to_string();
                String::from_str("JSON parse error: ").concat(detail.as_str())
            },
            ParseError::EmptyPlan => String::from_str("LLM returned empty plan: no packages or services"),
        }
    }
}

/// Accepts the plan decoded from the model's answer: a decoding failure is
/// passed on as [`ParseError::Json`], a plan without packages and services is
/// refused, and any other plan is returned unchanged.
pub fn parse_llm_output(decoded: Result<NixPlan, serde_json::Error>) -> (res: Result<NixPlan, ParseError>)
    ensures
        match decoded {
            Err(e) => res == Err::<NixPlan, ParseError>(ParseError::Json(e)),
            Ok(plan) => if plan_is_empty(plan@) {
                res == Err::<NixPlan, ParseError>(ParseError::EmptyPlan)
            } else {
                res == Ok::<NixPlan, ParseError>(plan)
            },
        },
{
    match decoded {
        Err(e) => Err(ParseError::from(e)),
        Ok(plan) => {
            if plan.packages.len() == 0 && plan.services.len() == 0 {
                Err(ParseError::EmptyPlan)
            } else {
                Ok(plan)
            }
        },
    }
}

/// A plan is refused exactly when it names neither packages nor services;
/// a plan with at least one package or one service is kept.
pub proof fn lemma_refusal_rule(plan: NixPlan)
    ensures
        plan_is_empty(plan@) <==> (plan.packages@.len() == 0 && plan.services@.len() == 0),
        plan.services@.len() > 0 ==> !plan_is_empty(plan@),
        plan.packages@.len() > 0 ==> !plan_is_empty(plan@),
{
}

} // verus!
