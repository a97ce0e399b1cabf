use vstd::prelude::*;
use vstd::string::*;

verus! {

/// Base configuration of the process, read from environment variables.
pub struct Config {
    pub server_addr: String,
    pub database_url: Option<String>,
    pub app_name: String,
    pub nacos_addr: String,
    pub nacos_namespace: String,
    pub nacos_username: Option<String>,
    pub nacos_password: Option<String>,
    pub nacos_config_data_id: String,
    pub nacos_config_group: String,
    pub auth_service_name: String,
}

/// Why the base configuration could not be loaded.
pub enum ConfigError {
    /// A required environment variable, named here, is not set.
    Var(String),
}

/// How to reach and log in to the nacos server.
pub struct NacosClientOptions {
    pub server_addr: String,
    pub namespace: String,
    pub app_name: String,
    /// User name and password, when both are configured.
    pub credentials: Option<(String, String)>,
    /// Whether the HTTP auth plugin is switched on: whenever a user name is set.
    pub auth_plugin: bool,
}

/// Value of the first variable named `key`, in a list of (name, value) pairs.
pub open spec fn env_lookup(vars: Seq<(String, String)>, key: Seq<char>) -> Option<String>
    decreases vars.len(),
{
    if vars.len() == 0 {
        None
    } else if vars[0].0@ == key {
        Some(vars[0].1)
    } else {
        env_lookup(vars.drop_first(), key)
    }
}

pub open spec fn text_or(value: Option<String>, default: Seq<char>) -> Seq<char> {
    match value {
        Some(s) => s@,
        None => default,
    }
}

/// Value of the variable named `key`, if it is set.
pub fn env_var(vars: &Vec<(String, String)>, key: &str) -> (r: Option<String>)
    ensures
        r == env_lookup(vars@, key@),
{
    let wanted = String::from_str(key);
    let mut i: usize = 0;
    assert(vars@.subrange(0, vars@.len() as int) =~= vars@);
    while i < vars.len()
        invariant
            i <= vars@.len(),
            wanted@ == key@,
            env_lookup(vars@, key@) == env_lookup(vars@.subrange(i as int, vars@.len() as int), key@),
        decreases vars@.len() - i,
    {
        let ghost rest = vars@.subrange(i as int, vars@.len() as int);
        assert(rest.drop_first() =~= vars@.subrange(i + 1, vars@.len() as int));
        if vars[i].0 == wanted {
            return Some(vars[i].1.clone());
        }
        i += 1;
    }
    None
}

fn var_or(vars: &Vec<(String, String)>, key: &str, default: &str) -> (r: String)
    ensures
        r@ == text_or(env_lookup(vars@, key@), default@),
{
    match env_var(vars, key) {
        Some(v) => v,
        None => String::from_str(default),
    }
}

impl Config {
    /// The base configuration from the process environment, given as its
    /// (name, value) pairs. `NACOS_ADDR`, `NACOS_CONFIG_DATA_ID` and
    /// `AUTH_SERVICE_NAME` are required, and the first of them that is missing
    /// is the error; the others are optional or have defaults.
    pub fn from_env(vars: &Vec<(String, String)>) -> (r: Result<Config, ConfigError>)
        ensures
            r is Ok <==> (env_lookup(vars@, "NACOS_ADDR"@) is Some && env_lookup(
                vars@,
                "NACOS_CONFIG_DATA_ID"@,
            ) is Some && env_lookup(vars@, "AUTH_SERVICE_NAME"@) is Some),
            env_lookup(vars@, "NACOS_ADDR"@) is None ==> (r matches Err(ConfigError::Var(n)) && n@
                == "NACOS_ADDR"@),
            env_lookup(vars@, "NACOS_ADDR"@) is Some && env_lookup(vars@, "NACOS_CONFIG_DATA_ID"@)
                is None ==> (r matches Err(ConfigError::Var(n)) && n@ == "NACOS_CONFIG_DATA_ID"@),
            env_lookup(vars@, "NACOS_ADDR"@) is Some && env_lookup(vars@, "NACOS_CONFIG_DATA_ID"@)
                is Some && env_lookup(vars@, "AUTH_SERVICE_NAME"@) is None ==> (r matches Err(
                ConfigError::Var(n),
            ) && n@ == "AUTH_SERVICE_NAME"@),
            r matches Ok(c) ==> {
                &&& c.server_addr@ == text_or(env_lookup(vars@, "SERVER_ADDR"@), "0.0.0.0:4000"@)
                &&& c.database_url == env_lookup(vars@, "DATABASE_URL"@)
                &&& c.app_name@ == text_or(env_lookup(vars@, "APP_NAME"@), "axum-template-service"@)
                &&& Some(c.nacos_addr) == env_lookup(vars@, "NACOS_ADDR"@)
                &&& c.nacos_namespace@ == text_or(env_lookup(vars@, "NACOS_NAMESPACE"@), ""@)
                &&& c.nacos_username == env_lookup(vars@, "NACOS_USERNAME"@)
                &&& c.nacos_password == env_lookup(vars@, "NACOS_PASSWORD"@)
                &&& Some(c.nacos_config_data_id) == env_lookup(vars@, "NACOS_CONFIG_DATA_ID"@)
                &&& c.nacos_config_group@ == text_or(
                    env_lookup(vars@, "NACOS_CONFIG_GROUP"@),
                    "DEFAULT_GROUP"@,
                )
                &&& Some(c.auth_service_name) == env_lookup(vars@, "AUTH_SERVICE_NAME"@)
            },
    {
        let server_addr = var_or(vars, "SERVER_ADDR", "0.0.0.0:4000");
        let database_url = env_var(vars, "DATABASE_URL");
        let app_name = var_or(vars, "APP_NAME", "axum-template-service");
        let nacos_addr = match env_var(vars, "NACOS_ADDR") {
            Some(v) => v,
            None => return Err(ConfigError::Var(String::from_str("NACOS_ADDR"))),
        };
        let nacos_namespace = var_or(vars, "NACOS_NAMESPACE", "");
        let nacos_username = env_var(vars, "NACOS_USERNAME");
        let nacos_password = env_var(vars, "NACOS_PASSWORD");
        let nacos_config_data_id = match env_var(vars, "NACOS_CONFIG_DATA_ID") {
            Some(v) => v,
            None => return Err(ConfigError::Var(String::from_str("NACOS_CONFIG_DATA_ID"))),
        };
        let nacos_config_group = var_or(vars, "NACOS_CONFIG_GROUP", "DEFAULT_GROUP");
        let auth_service_name = match env_var(vars, "AUTH_SERVICE_NAME") {
            Some(v) => v,
            None => return Err(ConfigError::Var(String::from_str("AUTH_SERVICE_NAME"))),
        };
        Ok(
            Config {
                server_addr,
                database_url,
                app_name,
                nacos_addr,
                nacos_namespace,
                nacos_username,
                nacos_password,
                nacos_config_data_id,
                nacos_config_group,
                auth_service_name,
            },
        )
    }

    /// Options for both nacos clients: credentials only when a user name and
    /// a password are both set, the auth plugin whenever a user name is.
    pub fn nacos_client_options(&self) -> (r: NacosClientOptions)
        ensures
            r.server_addr == self.nacos_addr,
            r.namespace == self.nacos_namespace,
            r.app_name == self.app_name,
            r.auth_plugin == self.nacos_username is Some,
            match (self.nacos_username, self.nacos_password) {
                (Some(u), Some(p)) => r.credentials == Some((u, p)),
                _ => r.credentials is None,
            },
    {
        let credentials = match (&self.nacos_username, &self.nacos_password) {
            (Some(u), Some(p)) => Some((u.clone(), p.clone())),
            _ => None,
        };
        NacosClientOptions {
            server_addr: self.nacos_addr.clone(),
            namespace: self.nacos_namespace.clone(),
            app_name: self.app_name.clone(),
            credentials,
            auth_plugin: self.nacos_username.is_some(),
        }
    }
}

} // verus!
