//! Application storage: the store configuration, its defaults and the
//! environment that overrides them, and the storage failures.
use std::collections::HashMap;
use vstd::prelude::*;
use crate::inputs::{input_get, input_model, lookup};
use crate::text::{ascii_lower, ascii_lowercase, concat2, opt_text, owned, str_eq, texts};

verus! {

/// A SurrealDB endpoint.
#[derive(Debug, Clone)]
pub struct SurrealStoreConfig {
    pub endpoint: String,
    pub namespace: String,
    pub database: String,
    pub username: Option<String>,
    pub password: Option<String>,
}

/// A LanceDB vector store.
#[derive(Debug, Clone)]
pub struct LanceStoreConfig {
    pub uri: String,
    pub embedding_dim: usize,
    pub table_name: String,
}

#[derive(Debug, Clone)]
pub enum RecordStoreConfig {
    Memory,
    Surreal(SurrealStoreConfig),
}

#[derive(Debug, Clone)]
pub enum VectorStoreConfig {
    Disabled,
    LanceDb(LanceStoreConfig),
}

#[derive(Debug, Clone)]
pub enum ContextSnapshotStoreConfig {
    Memory,
    Surreal(SurrealStoreConfig),
}

#[derive(Debug, Clone)]
pub enum ExperienceLedgerStoreConfig {
    Memory,
    Surreal(SurrealStoreConfig),
}

#[derive(Debug, Clone, Copy, PartialEq, Eq)]
pub enum UsageSourceKind {
    ProductEvents,
    MarketingSite,
    DocumentationSite,
    ExternalWebsite,
}

/// A source of usage events.
#[derive(Debug, Clone)]
pub struct UsageIngestionConfig {
    pub source_name: String,
    pub source_kind: UsageSourceKind,
    pub site_root: Option<String>,
    pub ingest_url: Option<String>,
    pub aggregates_url: Option<String>,
    pub enabled: bool,
    pub workspace_id: Option<String>,
    pub correlation_keys: Vec<String>,
    pub event_types: Vec<String>,
    pub analytics_vendors: Vec<String>,
}

/// A runtime module of the converge integration.
#[derive(Debug, Clone)]
pub struct RuntimeModuleConfig {
    pub name: String,
    pub purpose: String,
    pub enabled: bool,
}

/// Which converge features are switched on.
#[derive(Debug, Clone)]
pub struct ConvergeFeatureConfig {
    pub analytics_enabled: bool,
    pub optimization_enabled: bool,
    pub llm_enabled: bool,
    pub runtime_modules: Vec<RuntimeModuleConfig>,
}

/// The application's storage and feature configuration.
#[derive(Debug, Clone)]
pub struct AppConfig {
    pub record_store: RecordStoreConfig,
    pub vector_store: VectorStoreConfig,
    pub context_store: ContextSnapshotStoreConfig,
    pub experience_store: ExperienceLedgerStoreConfig,
    pub usage_ingestion: Vec<UsageIngestionConfig>,
    pub converge: ConvergeFeatureConfig,
}

/// The names of the runtime modules that a local CRM runs, in order.
pub open spec fn local_module_names() -> Seq<Seq<char>> {
    seq![
        "linkedin-scan"@,
        "website-usage-ingest"@,
        "lead-routing"@,
        "account-fit-scoring"@,
    ]
}

fn module(name: &str, purpose: &str) -> (r: RuntimeModuleConfig)
    ensures
        r.name@ == name@,
        r.purpose@ == purpose@,
        r.enabled,
{
    RuntimeModuleConfig { name: owned(name), purpose: owned(purpose), enabled: true }
}

/// What each of the local CRM's runtime modules is for, in order.
pub open spec fn local_module_purposes() -> Seq<Seq<char>> {
    seq![
        "Governed LinkedIn profile and company research"@,
        "First-party marketing and product behavior ingestion"@,
        "Optimization-backed queueing and prioritization"@,
        "Analytics or ML scoring over CRM and usage signals"@,
    ]
}

/// The runtime modules that a local CRM runs: all four, enabled.
pub fn runtime_modules_for_local_crm() -> (r: Vec<RuntimeModuleConfig>)
    ensures
        r@.len() == 4,
        forall|i: int| 0 <= i < 4 ==> (#[trigger] r@[i]).name@ == local_module_names()[i] && r@[i].enabled,
        forall|i: int| 0 <= i < 4 ==> (#[trigger] r@[i]).purpose@ == local_module_purposes()[i],
{
    let mut v = Vec::new();
    v.push(module("linkedin-scan", "Governed LinkedIn profile and company research"));
    v.push(module("website-usage-ingest", "First-party marketing and product behavior ingestion"));
    v.push(module("lead-routing", "Optimization-backed queueing and prioritization"));
    v.push(module("account-fit-scoring", "Analytics or ML scoring over CRM and usage signals"));
    v
}

impl ConvergeFeatureConfig {
    /// Every feature on, with the local CRM's runtime modules.
    pub fn default_features() -> (r: Self)
        ensures
            r.analytics_enabled && r.optimization_enabled && r.llm_enabled,
            r.runtime_modules@.len() == 4,
            forall|i: int| 0 <= i < 4 ==> (#[trigger] r.runtime_modules@[i]).name@ == local_module_names()[i] && r.runtime_modules@[i].enabled,
            forall|i: int| 0 <= i < 4 ==> (#[trigger] r.runtime_modules@[i]).purpose@ == local_module_purposes()[i],
    {
        ConvergeFeatureConfig {
            analytics_enabled: true,
            optimization_enabled: true,
            llm_enabled: true,
            runtime_modules: runtime_modules_for_local_crm(),
        }
    }
}

fn strings2(a: &str, b: &str) -> (r: Vec<String>)
    ensures
        r@.len() == 1 + 1,
        r@[0]@ == a@,
        r@[1]@ == b@,
{
    let mut v = Vec::new();
    v.push(owned(a));
    v.push(owned(b));
    v
}

/// The marketing site as a usage source, as the default configuration
/// names it.
pub open spec fn is_default_usage_source(u: UsageIngestionConfig) -> bool {
    &&& u.source_name@ == "www.converge.zone"@
    &&& u.source_kind == UsageSourceKind::MarketingSite
    &&& u.enabled
    &&& opt_text(u.site_root) == Some("/Users/kpernyer/dev/brand/www.converge.zone"@)
    &&& opt_text(u.ingest_url) == Some("https://us-central1-converge-369ad.cloudfunctions.net/analyticsIngest"@)
    &&& opt_text(u.aggregates_url) == Some(
        "https://us-central1-converge-369ad.cloudfunctions.net/analyticsAggregates"@,
    )
    &&& opt_text(u.workspace_id) == Some("converge"@)
    &&& texts(u.correlation_keys@) == seq!["anonymous_id"@, "session_id"@, "email"@, "company_domain"@]
    &&& texts(u.event_types@) == seq![
        "session_start"@,
        "page_view"@,
        "page_scroll_milestone"@,
        "page_summary"@,
        "link_click"@,
    ]
    &&& texts(u.analytics_vendors@) == seq!["firebase-functions"@]
}

/// Every converge feature on, with the local CRM's four runtime modules.
pub open spec fn is_default_features(c: ConvergeFeatureConfig) -> bool {
    &&& c.analytics_enabled && c.optimization_enabled && c.llm_enabled
    &&& c.runtime_modules@.len() == 4
    &&& forall|i: int| 0 <= i < 4 ==> (#[trigger] c.runtime_modules@[i]).name@ == local_module_names()[i]
        && c.runtime_modules@[i].enabled && c.runtime_modules@[i].purpose@ == local_module_purposes()[i]
}

impl AppConfig {
    /// Everything in memory, no vector store, the marketing site as the one
    /// usage source, and every converge feature on.
    pub fn default_config() -> (r: Self)
        ensures
            r.record_store is Memory,
            r.vector_store is Disabled,
            r.context_store is Memory,
            r.experience_store is Memory,
            r.usage_ingestion@.len() == 1,
            is_default_usage_source(r.usage_ingestion@[0]),
            is_default_features(r.converge),
    {
        let mut correlation_keys = strings2("anonymous_id", "session_id");
        correlation_keys.push(owned("email"));
        correlation_keys.push(owned("company_domain"));
        let mut event_types = strings2("session_start", "page_view");
        event_types.push(owned("page_scroll_milestone"));
        event_types.push(owned("page_summary"));
        event_types.push(owned("link_click"));
        let mut vendors = Vec::new();
        vendors.push(owned("firebase-functions"));
        let mut usage = Vec::new();
        usage.push(
            UsageIngestionConfig {
                source_name: owned("www.converge.zone"),
                source_kind: UsageSourceKind::MarketingSite,
                site_root: Some(owned("/Users/kpernyer/dev/brand/www.converge.zone")),
                ingest_url: Some(
                    owned("https://us-central1-converge-369ad.cloudfunctions.net/analyticsIngest"),
                ),
                aggregates_url: Some(
                    owned(
                        "https://us-central1-converge-369ad.cloudfunctions.net/analyticsAggregates",
                    ),
                ),
                enabled: true,
                workspace_id: Some(owned("converge")),
                correlation_keys,
                event_types,
                analytics_vendors: vendors,
            },
        );
        assert(texts(correlation_keys@) =~= seq!["anonymous_id"@, "session_id"@, "email"@, "company_domain"@]);
        assert(texts(event_types@) =~= seq![
            "session_start"@,
            "page_view"@,
            "page_scroll_milestone"@,
            "page_summary"@,
            "link_click"@,
        ]);
        assert(texts(vendors@) =~= seq!["firebase-functions"@]);
        AppConfig {
            record_store: RecordStoreConfig::Memory,
            vector_store: VectorStoreConfig::Disabled,
            context_store: ContextSnapshotStoreConfig::Memory,
            experience_store: ExperienceLedgerStoreConfig::Memory,
            usage_ingestion: usage,
            converge: ConvergeFeatureConfig::default_features(),
        }
    }

    /// The default configuration overridden by the environment's
    /// `CRM_RECORD_STORE`, `CRM_CONTEXT_STORE` and `CRM_EXPERIENCE_STORE`
    /// (`memory` or `surreal`, in any ASCII case) and their `CRM_*SURREAL_*`
    /// endpoint settings.
    pub fn from_env_map(env: &HashMap<String, String>) -> (r: Self)
        ensures
            ({
                let m = input_model(*env);
                let record = env_store_choice(m, "CRM_RECORD_STORE"@);
                let context = env_store_choice(m, "CRM_CONTEXT_STORE"@);
                let experience = env_store_choice(m, "CRM_EXPERIENCE_STORE"@);
                &&& (record == Some("surreal"@)) == (r.record_store is Surreal)
                &&& (r.record_store matches RecordStoreConfig::Surreal(c) ==> surreal_from_env(
                    m,
                    "CRM_SURREAL_"@,
                    "mem://"@,
                    "crm_prio_ai"@,
                    "local"@,
                    c,
                ))
                &&& if context == Some("memory"@) {
                    r.context_store is Memory
                } else if context == Some("surreal"@) {
                    r.context_store matches ContextSnapshotStoreConfig::Surreal(c)
                        && surreal_from_env(m, "CRM_CONTEXT_SURREAL_"@, "mem://"@, "crm_prio_ai"@, "local"@, c)
                } else if record == Some("surreal"@) {
                    r.context_store matches ContextSnapshotStoreConfig::Surreal(c)
                        && surreal_from_env(m, "CRM_SURREAL_"@, "mem://"@, "crm_prio_ai"@, "local"@, c)
                } else {
                    r.context_store is Memory
                }
                &&& if experience == Some("surreal"@) {
                    r.experience_store matches ExperienceLedgerStoreConfig::Surreal(c)
                        && surreal_from_env(
                        m,
                        "CRM_EXPERIENCE_SURREAL_"@,
                        "ws://127.0.0.1:8000/rpc"@,
                        "crm_prio_ai"@,
                        "experience"@,
                        c,
                    )
                } else {
                    r.experience_store is Memory
                }
                &&& r.vector_store is Disabled
                &&& r.usage_ingestion@.len() == 1
                &&& is_default_usage_source(r.usage_ingestion@[0])
                &&& is_default_features(r.converge)
            }),
    {
        let mut config = AppConfig::default_config();
        let record = env_choice(env, "CRM_RECORD_STORE");
        if is_word(&record, "surreal") {
            let surreal = surreal_store_config_from_env(
                env,
                "CRM_SURREAL_",
                "mem://",
                "crm_prio_ai",
                "local",
            );
            config.record_store = RecordStoreConfig::Surreal(surreal.clone_config());
            config.context_store = ContextSnapshotStoreConfig::Surreal(surreal);
        }
        let context = env_choice(env, "CRM_CONTEXT_STORE");
        if is_word(&context, "memory") {
            config.context_store = ContextSnapshotStoreConfig::Memory;
        } else if is_word(&context, "surreal") {
            config.context_store = ContextSnapshotStoreConfig::Surreal(
                surreal_store_config_from_env(
                    env,
                    "CRM_CONTEXT_SURREAL_",
                    "mem://",
                    "crm_prio_ai",
                    "local",
                ),
            );
        }
        let experience = env_choice(env, "CRM_EXPERIENCE_STORE");
        if is_word(&experience, "surreal") {
            config.experience_store = ExperienceLedgerStoreConfig::Surreal(
                surreal_store_config_from_env(
                    env,
                    "CRM_EXPERIENCE_SURREAL_",
                    "ws://127.0.0.1:8000/rpc",
                    "crm_prio_ai",
                    "experience",
                ),
            );
        }
        config
    }
}

/// The ASCII-lower-cased value of an environment variable, if set.
pub open spec fn env_store_choice(m: Map<Seq<char>, Seq<char>>, name: Seq<char>) -> Option<Seq<char>> {
    match lookup(m, name) {
        Some(v) => Some(ascii_lower(v)),
        None => None,
    }
}

/// A SurrealDB configuration read from `{prefix}ENDPOINT`, `NAMESPACE`,
/// `DATABASE`, `USERNAME` and `PASSWORD`, with defaults for the first three.
pub open spec fn surreal_from_env(
    m: Map<Seq<char>, Seq<char>>,
    prefix: Seq<char>,
    endpoint: Seq<char>,
    namespace: Seq<char>,
    database: Seq<char>,
    c: SurrealStoreConfig,
) -> bool {
    &&& c.endpoint@ == (match lookup(m, prefix + "ENDPOINT"@) { Some(v) => v, None => endpoint })
    &&& c.namespace@ == (match lookup(m, prefix + "NAMESPACE"@) { Some(v) => v, None => namespace })
    &&& c.database@ == (match lookup(m, prefix + "DATABASE"@) { Some(v) => v, None => database })
    &&& opt_text(c.username) == lookup(m, prefix + "USERNAME"@)
    &&& opt_text(c.password) == lookup(m, prefix + "PASSWORD"@)
}

fn env_choice(env: &HashMap<String, String>, name: &str) -> (r: Option<String>)
    ensures
        opt_text(r) == env_store_choice(input_model(*env), name@),
{
    match input_get(env, name) {
        Some(v) => Some(ascii_lowercase(v.as_str())),
        None => None,
    }
}

fn is_word(value: &Option<String>, word: &str) -> (r: bool)
    ensures
        r == (opt_text(*value) == Some(word@)),
{
    match value {
        Some(v) => str_eq(v.as_str(), word),
        None => false,
    }
}

fn env_or(env: &HashMap<String, String>, name: String, default: &str) -> (r: String)
    ensures
        r@ == (match lookup(input_model(*env), name@) { Some(v) => v, None => default@ }),
{
    match input_get(env, name.as_str()) {
        Some(v) => v.clone(),
        None => owned(default),
    }
}

fn env_opt(env: &HashMap<String, String>, name: String) -> (r: Option<String>)
    ensures
        opt_text(r) == lookup(input_model(*env), name@),
{
    match input_get(env, name.as_str()) {
        Some(v) => Some(v.clone()),
        None => None,
    }
}

/// Reads a SurrealDB configuration under an environment prefix.
pub fn surreal_store_config_from_env(
    env: &HashMap<String, String>,
    prefix: &str,
    default_endpoint: &str,
    default_namespace: &str,
    default_database: &str,
) -> (r: SurrealStoreConfig)
    ensures
        surreal_from_env(
            input_model(*env),
            prefix@,
            default_endpoint@,
            default_namespace@,
            default_database@,
            r,
        ),
{
    SurrealStoreConfig {
        endpoint: env_or(env, concat2(prefix, "ENDPOINT"), default_endpoint),
        namespace: env_or(env, concat2(prefix, "NAMESPACE"), default_namespace),
        database: env_or(env, concat2(prefix, "DATABASE"), default_database),
        username: env_opt(env, concat2(prefix, "USERNAME")),
        password: env_opt(env, concat2(prefix, "PASSWORD")),
    }
}

impl SurrealStoreConfig {
    /// A copy with the same text in every field.
    pub fn clone_config(&self) -> (r: Self)
        ensures
            r.endpoint@ == self.endpoint@,
            r.namespace@ == self.namespace@,
            r.database@ == self.database@,
            opt_text(r.username) == opt_text(self.username),
            opt_text(r.password) == opt_text(self.password),
    {
        SurrealStoreConfig {
            endpoint: self.endpoint.clone(),
            namespace: self.namespace.clone(),
            database: self.database.clone(),
            username: match &self.username {
                Some(u) => Some(u.clone()),
                None => None,
            },
            password: match &self.password {
                Some(p) => Some(p.clone()),
                None => None,
            },
        }
    }
}

// ---------------------------------------------------------------- failures

/// A CRM kernel failure.
#[derive(Debug, Clone)]
pub enum KernelError {
    Validation(String),
    NotFound { kind: String, id: String },
    Invariant(String),
    Conflict(String),
}

/// A storage failure.
#[derive(Debug, Clone)]
pub enum StorageError {
    LockPoisoned,
    Kernel(KernelError),
    ConnectionFailed { backend: String, message: String },
    SerializationFailed { message: String },
    Timeout { operation: String },
    RuntimeStore { message: String },
}

} // verus!
