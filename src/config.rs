//! The test description: which broker, which devices, how often to publish.

use vstd::prelude::*;
use vstd::string::*;
use crate::context::{Context, clone_pairs, pairs_to_map, pairs_view, strip_quotes, stripped_pairs};
use crate::random::{is_alphanumeric, random_alphanumeric};

verus! {

pub const DEFAULT_AUTHENTICATION_PAYLOAD: &'static str = r#"
{
    "devices":[
        {
            "devid":"${thirdThingsId}",
            "devtype":"${infoModelName}"
        }
    ],
    "password":"${password}",
    "username":"${tenantName}"
}
"#;

pub const DEFAULT_TOKEN_EXTRACTOR: &'static str = ".data.token";

/// Length of the random suffix of a generated client id.
pub const CLIENT_ID_SUFFIX_LEN: usize = 7;

/// Name and labels of a test.
pub struct MetaData {
    pub name: String,
    pub label: Vec<(String, String)>,
}

/// Group, version and metadata of a test description.
pub struct GVK {
    pub group: String,
    pub version: String,
    pub meta_data: MetaData,
}

/// A whole test description: its header and the kind-specific part.
pub struct Stressing {
    pub gvk: GVK,
    pub spec: Spec,
}

/// The kind-specific part of a test description.
pub enum Spec {
    Test(Value),
    Publish(Config),
}

/// Body of a `test` description.
pub struct Value {
    pub value: String,
}

/// How to obtain a per-device token over HTTP. An empty `url` means that the
/// static password is used and no request is made.
pub struct DynamicToken {
    pub url: String,
    pub payload: String,
    pub token_extractor: String,
    pub method: String,
    pub servers: Vec<String>,
}

/// One simulated device.
pub struct ThingsInfo {
    pub tenant_name: String,
    pub info_model_name: String,
    pub third_things_id: String,
    pub password: String,
    pub context: Vec<(String, String)>,
}

/// Everything a publishing test needs; shared read-only by all sessions.
pub struct Config {
    pub broker_addr: Vec<String>,
    pub client_id: String,
    pub user_name: String,
    pub password: String,
    pub think_time: i32,
    pub random_client_id: bool,
    pub topic_suffix: String,
    pub is_payload_base64: bool,
    pub things_payloads: Vec<(String, String)>,
    pub duration: i32,
    pub things_info: Vec<ThingsInfo>,
    pub topic_template: String,
    pub dynamic_token: DynamicToken,
}

/// The placeholder values of a device: its context entries, then its four
/// identity fields, each with surrounding quotes removed.
pub open spec fn things_map(t: ThingsInfo) -> Map<Seq<char>, Seq<char>> {
    pairs_to_map(stripped_pairs(t.context@))
        .insert("tenantName"@, strip_quotes(t.tenant_name@))
        .insert("infoModelName"@, strip_quotes(t.info_model_name@))
        .insert("thirdThingsId"@, strip_quotes(t.third_things_id@))
        .insert("password"@, strip_quotes(t.password@))
}

/// The placeholder values of device `idx` in a session with `client_id`.
pub open spec fn session_map(cfg: Config, idx: int, client_id: Seq<char>) -> Map<Seq<char>, Seq<char>> {
    things_map(cfg.things_info@[idx]).insert("clientId"@, client_id)
}

pub fn default_method_value() -> (r: String)
    ensures
        r@ == "POST"@,
{
    String::from_str("POST")
}

pub fn default_dynamic_token() -> (r: DynamicToken)
    ensures
        r.url@.len() == 0,
        r.method@ == "POST"@,
        r.servers@.len() == 0,
{
    DynamicToken::new()
}

pub fn default_hashmap() -> (r: Vec<(String, String)>)
    ensures
        r@.len() == 0,
{
    Vec::new()
}

pub fn default_things_info() -> (r: Vec<ThingsInfo>)
    ensures
        r@.len() == 0,
{
    Vec::new()
}

pub fn default_meta_label() -> (r: Vec<(String, String)>)
    ensures
        r@.len() == 0,
{
    Vec::new()
}

pub fn default_broker_addr() -> (r: Vec<String>)
    ensures
        r@.len() == 1,
        r@[0]@ == "127.0.0.1:1883"@,
{
    let mut v: Vec<String> = Vec::new();
    v.push(String::from_str("127.0.0.1:1883"));
    v
}

pub fn default_client_id() -> (r: String)
    ensures
        r@ == "test"@,
{
    String::from_str("test")
}

pub fn default_think_time() -> (r: i32)
    ensures
        r == 30000,
{
    30000
}

pub fn default_user_name() -> (r: String)
    ensures
        r@ == "admin"@,
{
    String::from_str("admin")
}

pub fn default_password() -> (r: String)
    ensures
        r@ == "admin"@,
{
    String::from_str("admin")
}

pub fn default_random_client_id() -> (r: bool)
    ensures
        !r,
{
    false
}

pub fn default_topic_suffix() -> (r: String)
    ensures
        r@.len() == 0,
{
    String::new()
}

pub fn default_is_payload_base64() -> (r: bool)
    ensures
        r,
{
    true
}

/// One minute.
pub fn default_duration() -> (r: i32)
    ensures
        r == 60,
{
    60
}

/// Access to the header of a test description.
pub trait GroupVersionKind {
    spec fn group_view(&self) -> Seq<char>;

    spec fn version_view(&self) -> Seq<char>;

    spec fn kind_view(&self) -> Seq<char>;

    spec fn meta_name_view(&self) -> Seq<char>;

    spec fn meta_label_view(&self) -> Seq<(Seq<char>, Seq<char>)>;

    fn group(&self) -> (r: String)
        ensures
            r@ == self.group_view(),
    ;

    fn version(&self) -> (r: String)
        ensures
            r@ == self.version_view(),
    ;

    fn kind(&self) -> (r: String)
        ensures
            r@ == self.kind_view(),
    ;

    fn meta(&self) -> (r: MetaData)
        ensures
            r.name@ == self.meta_name_view(),
            pairs_view(r.label@) == self.meta_label_view(),
    ;
}

impl GroupVersionKind for Stressing {
    open spec fn group_view(&self) -> Seq<char> {
        self.gvk.group@
    }

    open spec fn version_view(&self) -> Seq<char> {
        self.gvk.version@
    }

    /// `test` or `publish`, after the kind-specific part.
    open spec fn kind_view(&self) -> Seq<char> {
        match self.spec {
            Spec::Test(_) => "test"@,
            Spec::Publish(_) => "publish"@,
        }
    }

    open spec fn meta_name_view(&self) -> Seq<char> {
        self.gvk.meta_data.name@
    }

    open spec fn meta_label_view(&self) -> Seq<(Seq<char>, Seq<char>)> {
        pairs_view(self.gvk.meta_data.label@)
    }

    fn group(&self) -> (r: String) {
        self.gvk.group.clone()
    }

    fn version(&self) -> (r: String) {
        self.gvk.version.clone()
    }

    fn kind(&self) -> (r: String) {
        match self.spec {
            Spec::Test(_) => String::from_str("test"),
            Spec::Publish(_) => String::from_str("publish"),
        }
    }

    fn meta(&self) -> (r: MetaData) {
        MetaData { name: self.gvk.meta_data.name.clone(), label: clone_pairs(&self.gvk.meta_data.label) }
    }
}

impl DynamicToken {
    /// No dynamic token: empty url, default request body and extractor.
    pub fn new() -> (r: DynamicToken)
        ensures
            r.url@.len() == 0,
            r.payload@ == DEFAULT_AUTHENTICATION_PAYLOAD@,
            r.token_extractor@ == DEFAULT_TOKEN_EXTRACTOR@,
            r.method@ == "POST"@,
            r.servers@.len() == 0,
    {
        DynamicToken {
            url: String::new(),
            payload: String::from_str(DEFAULT_AUTHENTICATION_PAYLOAD),
            token_extractor: String::from_str(DEFAULT_TOKEN_EXTRACTOR),
            method: default_method_value(),
            servers: Vec::new(),
        }
    }
}

impl ThingsInfo {
    /// The placeholder values of this device.
    pub fn to_map(&self) -> (r: Context)
        ensures
            r@ == things_map(*self),
    {
        let mut result = Context::new();
        let n = self.context.len();
        for i in 0..n
            invariant
                n == self.context@.len(),
                crate::context::pairs_view(result.entries@) =~= stripped_pairs(
                    self.context@.subrange(0, i as int),
                ),
        {
            let key = self.context[i].0.clone();
            result.insert_unquoted(key, self.context[i].1.as_str());
            proof {
                assert(self.context@.subrange(0, i + 1) =~= self.context@.subrange(
                    0,
                    i as int,
                ).push(self.context@[i as int]));
            }
        }
        proof {
            assert(self.context@.subrange(0, n as int) =~= self.context@);
        }
        insert(String::from_str("tenantName"), self.tenant_name.as_str(), &mut result);
        insert(String::from_str("infoModelName"), self.info_model_name.as_str(), &mut result);
        insert(String::from_str("thirdThingsId"), self.third_things_id.as_str(), &mut result);
        insert(String::from_str("password"), self.password.as_str(), &mut result);
        result
    }
}

/// Sets `k` in `m` to `value` with surrounding quotes removed.
pub fn insert(k: String, value: &str, m: &mut Context)
    ensures
        final(m)@ == old(m)@.insert(k@, strip_quotes(value@)),
{
    m.insert_unquoted(k, value);
}

impl Config {
    /// Placeholder values for rendering the topic of device `things_idx`.
    pub fn to_context(&self, things_idx: usize, client_id: &str) -> (r: Context)
        requires
            things_idx < self.things_info@.len(),
        ensures
            r@ == session_map(*self, things_idx as int, client_id@),
    {
        let mut result = self.things_info[things_idx].to_map();
        result.insert(String::from_str("clientId"), client_id.to_owned());
        result
    }

    /// The client id of device `things_idx`: the configured prefix with a
    /// random alphanumeric suffix when ids are random, otherwise
    /// `<infoModelName>:<thirdThingsId>`.
    pub fn get_client_id(&self, things_idx: usize) -> (r: String)
        requires
            things_idx < self.things_info@.len(),
        ensures
            self.random_client_id ==> {
                &&& r@.len() == self.client_id@.len() + CLIENT_ID_SUFFIX_LEN
                &&& r@.subrange(0, self.client_id@.len() as int) == self.client_id@
                &&& forall|i: int|
                    self.client_id@.len() <= i < r@.len() ==> is_alphanumeric(#[trigger] r@[i])
            },
            !self.random_client_id ==> r@ == self.things_info@[things_idx as int].info_model_name@
                + ":"@ + self.things_info@[things_idx as int].third_things_id@,
    {
        if self.random_client_id {
            let suffix = random_alphanumeric(CLIENT_ID_SUFFIX_LEN);
            let r = self.client_id.clone().concat(suffix.as_str());
            proof {
                assert(r@.subrange(0, self.client_id@.len() as int) =~= self.client_id@);
                assert forall|i: int| self.client_id@.len() <= i < r@.len() implies is_alphanumeric(
                    #[trigger] r@[i],
                ) by {
                    assert(r@[i] == suffix@[i - self.client_id@.len()]);
                }
            }
            r
        } else {
            let t = &self.things_info[things_idx];
            t.info_model_name.clone().concat(":").concat(t.third_things_id.as_str())
        }
    }
}

} // verus!
