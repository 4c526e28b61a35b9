use vstd::prelude::*;

verus! {

/// The construction-time settings the cache's surroundings consume: the
/// remote service's credentials, where the session token is persisted, the
/// access password, and where the listing is served.  Loading and storing
/// the file this comes from is the application's business; the library
/// only fixes the shape and the defaults.
pub struct ConfigInner {
    pub api_id: i32,
    pub api_hash: String,
    pub phone: String,
    pub session_file_path: String,
    pub password: String,
    pub server_host: String,
    pub server_port: u16,
}

impl Clone for ConfigInner {
    fn clone(&self) -> (r: Self)
        ensures
            r.api_id == self.api_id,
            r.api_hash@ == self.api_hash@,
            r.phone@ == self.phone@,
            r.session_file_path@ == self.session_file_path@,
            r.password@ == self.password@,
            r.server_host@ == self.server_host@,
            r.server_port == self.server_port,
    {
        ConfigInner {
            api_id: self.api_id,
            api_hash: self.api_hash.clone(),
            phone: self.phone.clone(),
            session_file_path: self.session_file_path.clone(),
            password: self.password.clone(),
            server_host: self.server_host.clone(),
            server_port: self.server_port,
        }
    }
}

impl PartialEq for ConfigInner {
    fn eq(&self, other: &Self) -> bool {
        self.api_id == other.api_id && self.api_hash == other.api_hash && self.phone
            == other.phone && self.session_file_path == other.session_file_path && self.password
            == other.password && self.server_host == other.server_host && self.server_port
            == other.server_port
    }
}

impl vstd::std_specs::cmp::PartialEqSpecImpl for ConfigInner {
    open spec fn obeys_eq_spec() -> bool {
        true
    }

    open spec fn eq_spec(&self, other: &Self) -> bool {
        self.api_id == other.api_id && self.api_hash@ == other.api_hash@ && self.phone@
            == other.phone@ && self.session_file_path@ == other.session_file_path@
            && self.password@ == other.password@ && self.server_host@ == other.server_host@
            && self.server_port == other.server_port
    }
}

impl Default for ConfigInner {
    /// The placeholder settings written on first start, meant to be
    /// edited: empty credentials, a default session file, password and
    /// listen address.
    fn default() -> (r: Self)
        ensures
            r.api_id == 0,
            r.api_hash@ == Seq::<char>::empty(),
            r.phone@ == Seq::<char>::empty(),
            r.session_file_path@ == "session.bin"@,
            r.password@ == "password"@,
            r.server_host@ == "0.0.0.0"@,
            r.server_port == 8080,
    {
        ConfigInner {
            api_id: 0,
            api_hash: String::new(),
            phone: String::new(),
            session_file_path: String::from_str("session.bin"),
            password: String::from_str("password"),
            server_host: String::from_str("0.0.0.0"),
            server_port: 8080,
        }
    }
}

} // verus!
