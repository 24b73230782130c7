use vstd::prelude::*;

verus! {

/// The transport-security settings of a connection.
#[derive(Debug, PartialEq, Eq)]
pub struct SslOptions {
    /// File with the certificates the client trusts.
    pub trust_store: String,
    /// File with the client's own certificate chain.
    pub key_store: String,
    /// File with the client's private key.
    pub private_key: String,
    /// Password that unlocks the private key.
    pub private_key_password: String,
    /// Cipher suites the client offers.
    pub enabled_cipher_suites: String,
    /// Whether the server's certificate is verified.
    pub enable_server_cert_auth: bool,
}

/// What an [`SslOptions`] holds, as plain values.
pub struct SslOptionsView {
    pub trust_store: Seq<char>,
    pub key_store: Seq<char>,
    pub private_key: Seq<char>,
    pub private_key_password: Seq<char>,
    pub enabled_cipher_suites: Seq<char>,
    pub enable_server_cert_auth: bool,
}

impl View for SslOptions {
    type V = SslOptionsView;

    open spec fn view(&self) -> SslOptionsView {
        SslOptionsView {
            trust_store: self.trust_store@,
            key_store: self.key_store@,
            private_key: self.private_key@,
            private_key_password: self.private_key_password@,
            enabled_cipher_suites: self.enabled_cipher_suites@,
            enable_server_cert_auth: self.enable_server_cert_auth,
        }
    }
}

impl SslOptions {
    /// Settings that name no file and no cipher suite, with verification
    /// of the server's certificate switched on.
    pub fn new() -> (ssl: SslOptions)
        ensures
            ssl@ == (SslOptionsView {
                trust_store: Seq::empty(),
                key_store: Seq::empty(),
                private_key: Seq::empty(),
                private_key_password: Seq::empty(),
                enabled_cipher_suites: Seq::empty(),
                enable_server_cert_auth: true,
            }),
    {
        SslOptions {
            trust_store: String::new(),
            key_store: String::new(),
            private_key: String::new(),
            private_key_password: String::new(),
            enabled_cipher_suites: String::new(),
            enable_server_cert_auth: true,
        }
    }
}

impl Clone for SslOptions {
    /// A deep copy: every text is duplicated into storage of the copy's own.
    fn clone(&self) -> (copy: SslOptions)
        ensures
            copy@ == self@,
    {
        SslOptions {
            trust_store: self.trust_store.clone(),
            key_store: self.key_store.clone(),
            private_key: self.private_key.clone(),
            private_key_password: self.private_key_password.clone(),
            enabled_cipher_suites: self.enabled_cipher_suites.clone(),
            enable_server_cert_auth: self.enable_server_cert_auth,
        }
    }
}

} // verus!
