use crate::encoding::{has_nul_char, has_terminator, lemma_terminator_iff_nul_char, EncodedText};
use crate::error::ConfigError;
use crate::interval::{at_least_one, interval_seconds, whole_seconds};
use crate::record::{Address, BoundaryRecord};
use crate::ssl_options::{SslOptions, SslOptionsView};
use crate::will_options::{WillOptions, WillOptionsView};
use std::time::Duration;
use vstd::prelude::*;
use vstd::utf8::encode_utf8;

verus! {

/// What a [`ConnectOptions`] holds, as plain values: its boundary record and
/// the contents of its four storage slots.
pub struct ConnectOptionsView {
    /// The boundary record.
    pub copts: BoundaryRecord,
    /// The last-will slot.
    pub will: Option<WillOptionsView>,
    /// The transport-security slot.
    pub ssl: Option<SslOptionsView>,
    /// The content of the encoded user name.
    pub user_name: Seq<u8>,
    /// The content of the encoded password.
    pub password: Seq<u8>,
}

impl ConnectOptionsView {
    /// The options of a fresh configuration: the initial record, no
    /// sub-configuration and empty credentials.
    pub open spec fn initial() -> ConnectOptionsView {
        ConnectOptionsView {
            copts: BoundaryRecord::initial(),
            will: None,
            ssl: None,
            user_name: Seq::empty(),
            password: Seq::empty(),
        }
    }

    /// The address of the last-will slot: null when the slot is vacant.
    pub open spec fn will_address(self) -> Address {
        if self.will is Some {
            Address::Will
        } else {
            Address::Null
        }
    }

    /// The address of the transport-security slot: null when the slot is
    /// vacant.
    pub open spec fn ssl_address(self) -> Address {
        if self.ssl is Some {
            Address::Security
        } else {
            Address::Null
        }
    }

    /// The address of the user name: null when the user name is empty.
    pub open spec fn user_name_address(self) -> Address {
        if self.user_name.len() > 0 {
            Address::UserName
        } else {
            Address::Null
        }
    }

    /// The address of the password: null when the password is empty.
    pub open spec fn password_address(self) -> Address {
        if self.password.len() > 0 {
            Address::Password
        } else {
            Address::Null
        }
    }

    /// These options with every address field of the record derived anew
    /// from the storage slots. Nothing else changes.
    pub open spec fn fixed_up(self) -> ConnectOptionsView {
        ConnectOptionsView {
            copts: self.copts.with_addresses(
                self.will_address(),
                self.ssl_address(),
                self.user_name_address(),
                self.password_address(),
            ),
            ..self
        }
    }

    /// Every address field of the record is the address of its own slot,
    /// and null exactly when that slot holds nothing to point at.
    pub open spec fn well_formed(self) -> bool {
        &&& self.copts.will == self.will_address()
        &&& self.copts.ssl == self.ssl_address()
        &&& self.copts.username == self.user_name_address()
        &&& self.copts.password == self.password_address()
    }

    /// What the record's will address designates in these options.
    pub open spec fn will_target(self) -> Option<WillOptionsView> {
        if self.copts.will == Address::Will {
            self.will
        } else {
            None
        }
    }

    /// What the record's security address designates in these options.
    pub open spec fn ssl_target(self) -> Option<SslOptionsView> {
        if self.copts.ssl == Address::Security {
            self.ssl
        } else {
            None
        }
    }

    /// What the record's user-name address designates in these options.
    pub open spec fn user_name_target(self) -> Option<Seq<u8>> {
        if self.copts.username == Address::UserName {
            Some(self.user_name)
        } else {
            None
        }
    }

    /// What the record's password address designates in these options.
    pub open spec fn password_target(self) -> Option<Seq<u8>> {
        if self.copts.password == Address::Password {
            Some(self.password)
        } else {
            None
        }
    }

    /// These options with the clean-session flag of the record set.
    pub open spec fn with_clean_session(self, clean: bool) -> ConnectOptionsView {
        ConnectOptionsView {
            copts: BoundaryRecord {
                clean_session: if clean {
                    1i32
                } else {
                    0i32
                },
                ..self.copts
            },
            ..self
        }
    }
}

/// The collection of options for connecting to a broker.
///
/// The aggregate owns its sub-configurations in boxes and its credentials
/// in encoded buffers, so what the record's addresses designate stays put
/// when the aggregate itself moves.
#[derive(Debug)]
pub struct ConnectOptions {
    /// The boundary record.
    pub copts: BoundaryRecord,
    will: Option<Box<WillOptions>>,
    ssl: Option<Box<SslOptions>>,
    user_name: EncodedText,
    password: EncodedText,
}

impl View for ConnectOptions {
    type V = ConnectOptionsView;

    closed spec fn view(&self) -> ConnectOptionsView {
        ConnectOptionsView {
            copts: self.copts,
            will: match self.will {
                Some(will) => Some(will@),
                None => None,
            },
            ssl: match self.ssl {
                Some(ssl) => Some(ssl@),
                None => None,
            },
            user_name: self.user_name@,
            password: self.password@,
        }
    }
}

impl ConnectOptions {
    /// Creates a new, default set of connect options.
    pub fn new() -> (opts: ConnectOptions)
        ensures
            opts@ == ConnectOptionsView::initial(),
            opts@.well_formed(),
    {
        ConnectOptions::default()
    }

    /// Derives every address field of the record anew from the storage the
    /// aggregate owns now. The scalars and the storage are left as they are.
    pub fn fixup(opts: ConnectOptions) -> (fixed: ConnectOptions)
        ensures
            fixed@ == opts@.fixed_up(),
            fixed@.well_formed(),
    {
        let mut opts = opts;
        opts.copts.will = if opts.will.is_some() {
            Address::Will
        } else {
            Address::Null
        };
        opts.copts.ssl = if opts.ssl.is_some() {
            Address::Security
        } else {
            Address::Null
        };
        opts.copts.username = if opts.user_name.is_empty() {
            Address::Null
        } else {
            Address::UserName
        };
        opts.copts.password = if opts.password.is_empty() {
            Address::Null
        } else {
            Address::Password
        };
        opts
    }

    /// Sets the clean-session flag. The flag is a scalar of the record, so
    /// no address is affected.
    pub fn set_clean_session(&mut self, clean: bool)
        ensures
            final(self)@ == old(self)@.with_clean_session(clean),
    {
        self.copts.clean_session = if clean {
            1
        } else {
            0
        }
    }

    /// Whether the clean-session flag is set.
    pub fn get_clean_session(&self) -> (clean: bool)
        ensures
            clean == (self@.copts.clean_session != 0),
    {
        self.copts.clean_session != 0
    }

    /// The boundary record.
    pub fn record(&self) -> (record: &BoundaryRecord)
        ensures
            *record == self@.copts,
    {
        &self.copts
    }

    /// Follows the record's will address into this aggregate's storage.
    pub fn will_options(&self) -> (will: Option<&WillOptions>)
        ensures
            match will {
                Some(w) => self@.will_target() == Some(w@),
                None => self@.will_target() is None,
            },
    {
        match self.copts.will {
            Address::Will => match &self.will {
                Some(will) => Some(&**will),
                None => None,
            },
            _ => None,
        }
    }

    /// Follows the record's security address into this aggregate's storage.
    pub fn ssl_options(&self) -> (ssl: Option<&SslOptions>)
        ensures
            match ssl {
                Some(s) => self@.ssl_target() == Some(s@),
                None => self@.ssl_target() is None,
            },
    {
        match self.copts.ssl {
            Address::Security => match &self.ssl {
                Some(ssl) => Some(&**ssl),
                None => None,
            },
            _ => None,
        }
    }

    /// Follows the record's user-name address into this aggregate's
    /// storage and gives the encoded buffer found there.
    pub fn user_name(&self) -> (user_name: Option<&EncodedText>)
        ensures
            match user_name {
                Some(text) => self@.user_name_target() == Some(text@),
                None => self@.user_name_target() is None,
            },
    {
        match self.copts.username {
            Address::UserName => Some(&self.user_name),
            _ => None,
        }
    }

    /// Follows the record's password address into this aggregate's storage
    /// and gives the encoded buffer found there.
    pub fn password(&self) -> (password: Option<&EncodedText>)
        ensures
            match password {
                Some(text) => self@.password_target() == Some(text@),
                None => self@.password_target() is None,
            },
    {
        match self.copts.password {
            Address::Password => Some(&self.password),
            _ => None,
        }
    }
}

impl Default for ConnectOptions {
    fn default() -> (opts: ConnectOptions)
        ensures
            opts@ == ConnectOptionsView::initial(),
            opts@.well_formed(),
    {
        let opts = ConnectOptions {
            copts: BoundaryRecord::default(),
            will: None,
            ssl: None,
            user_name: EncodedText::empty(),
            password: EncodedText::empty(),
        };
        ConnectOptions::fixup(opts)
    }
}

impl Clone for ConnectOptions {
    /// A deep copy. Every owned value is duplicated into storage of the
    /// copy's own, and the copy's addresses are then derived from that
    /// storage, whatever the addresses of `self` hold.
    fn clone(&self) -> (copy: ConnectOptions)
        ensures
            copy@ == self@.fixed_up(),
            copy@.well_formed(),
    {
        let opts = ConnectOptions {
            copts: self.copts,
            will: match &self.will {
                Some(will) => Some(Box::new((**will).clone())),
                None => None,
            },
            ssl: match &self.ssl {
                Some(ssl) => Some(Box::new((**ssl).clone())),
                None => None,
            },
            user_name: self.user_name.clone(),
            password: self.password.clone(),
        };
        ConnectOptions::fixup(opts)
    }
}

/// What a [`ConnectOptionsBuilder`] has collected, as plain values.
pub struct ConnectOptionsBuilderView {
    /// The scalar settings, in a record whose addresses are never derived.
    pub copts: BoundaryRecord,
    /// The last-will options, if any were given.
    pub will: Option<WillOptionsView>,
    /// The transport-security options, if any were given.
    pub ssl: Option<SslOptionsView>,
    /// The user name as given.
    pub user_name: Seq<char>,
    /// The password as given.
    pub password: Seq<char>,
}

impl ConnectOptionsBuilderView {
    /// What a fresh builder holds: the initial record, no sub-configuration
    /// and empty credentials.
    pub open spec fn initial() -> ConnectOptionsBuilderView {
        ConnectOptionsBuilderView {
            copts: BoundaryRecord::initial(),
            will: None,
            ssl: None,
            user_name: Seq::empty(),
            password: Seq::empty(),
        }
    }

    /// Whether both credentials have a terminated encoding: neither holds
    /// a zero byte in its UTF-8 form.
    pub open spec fn encodable(self) -> bool {
        &&& !has_terminator(encode_utf8(self.user_name))
        &&& !has_terminator(encode_utf8(self.password))
    }

    /// The options this builder finalizes to: the collected values with
    /// the credentials encoded and every address derived from the new
    /// storage, or `InvalidConfig` when a credential cannot be encoded.
    pub open spec fn finalized(self) -> Result<ConnectOptionsView, ConfigError> {
        if self.encodable() {
            Ok(
                ConnectOptionsView {
                    copts: self.copts,
                    will: self.will,
                    ssl: self.ssl,
                    user_name: encode_utf8(self.user_name),
                    password: encode_utf8(self.password),
                }.fixed_up(),
            )
        } else {
            Err(ConfigError::InvalidConfig)
        }
    }
}

/// Collects the values of a set of connect options. The builder derives no
/// address; that happens when it is finalized.
pub struct ConnectOptionsBuilder {
    copts: BoundaryRecord,
    will: Option<WillOptions>,
    ssl: Option<SslOptions>,
    user_name: String,
    password: String,
}

impl View for ConnectOptionsBuilder {
    type V = ConnectOptionsBuilderView;

    closed spec fn view(&self) -> ConnectOptionsBuilderView {
        ConnectOptionsBuilderView {
            copts: self.copts,
            will: match self.will {
                Some(will) => Some(will@),
                None => None,
            },
            ssl: match self.ssl {
                Some(ssl) => Some(ssl@),
                None => None,
            },
            user_name: self.user_name@,
            password: self.password@,
        }
    }
}

impl ConnectOptionsBuilder {
    /// Creates a builder that holds the initial settings.
    pub fn new() -> (builder: ConnectOptionsBuilder)
        ensures
            builder@ == ConnectOptionsBuilderView::initial(),
    {
        ConnectOptionsBuilder {
            copts: BoundaryRecord::default(),
            will: None,
            ssl: None,
            user_name: String::new(),
            password: String::new(),
        }
    }

    /// Sets the keep alive interval for the client session: the whole
    /// seconds of `keep_alive_interval`, with zero raised to one.
    pub fn keep_alive_interval(&mut self, keep_alive_interval: Duration) -> (builder:
        &mut ConnectOptionsBuilder)
        ensures
            builder@ == (ConnectOptionsBuilderView {
                copts: BoundaryRecord {
                    keep_alive_interval: at_least_one(whole_seconds(keep_alive_interval)),
                    ..old(self)@.copts
                },
                ..old(self)@
            }),
            *final(self) == *final(builder),
    {
        self.copts.keep_alive_interval = interval_seconds(keep_alive_interval);
        self
    }

    /// Sets the 'clean session' flag to send to the broker.
    pub fn clean_session(&mut self, clean: bool) -> (builder: &mut ConnectOptionsBuilder)
        ensures
            builder@ == (ConnectOptionsBuilderView {
                copts: BoundaryRecord {
                    clean_session: if clean {
                        1i32
                    } else {
                        0i32
                    },
                    ..old(self)@.copts
                },
                ..old(self)@
            }),
            *final(self) == *final(builder),
    {
        self.copts.clean_session = if clean {
            1
        } else {
            0
        };
        self
    }

    /// Sets the maximum number of in-flight messages that can be
    /// simultaneously handled by this client.
    pub fn max_inflight(&mut self, max_inflight: i32) -> (builder: &mut ConnectOptionsBuilder)
        ensures
            builder@ == (ConnectOptionsBuilderView {
                copts: BoundaryRecord { max_inflight, ..old(self)@.copts },
                ..old(self)@
            }),
            *final(self) == *final(builder),
    {
        self.copts.max_inflight = max_inflight;
        self
    }

    /// Sets the last-will options for the connection. The builder takes
    /// ownership of them.
    pub fn will_options(&mut self, will: WillOptions) -> (builder: &mut ConnectOptionsBuilder)
        ensures
            builder@ == (ConnectOptionsBuilderView { will: Some(will@), ..old(self)@ }),
            *final(self) == *final(builder),
    {
        self.will = Some(will);
        self
    }

    /// Sets the transport-security options for the connection. The builder
    /// takes ownership of them.
    pub fn ssl_options(&mut self, ssl: SslOptions) -> (builder: &mut ConnectOptionsBuilder)
        ensures
            builder@ == (ConnectOptionsBuilderView { ssl: Some(ssl@), ..old(self)@ }),
            *final(self) == *final(builder),
    {
        self.ssl = Some(ssl);
        self
    }

    /// Sets the user name for authentication with the broker. The text is
    /// stored as given; it is encoded when the builder is finalized.
    pub fn user_name(&mut self, user_name: &str) -> (builder: &mut ConnectOptionsBuilder)
        ensures
            builder@ == (ConnectOptionsBuilderView { user_name: user_name@, ..old(self)@ }),
            *final(self) == *final(builder),
    {
        self.user_name = user_name.to_string();
        self
    }

    /// Sets the password for authentication with the broker. The text is
    /// stored as given; it is encoded when the builder is finalized.
    pub fn password(&mut self, password: &str) -> (builder: &mut ConnectOptionsBuilder)
        ensures
            builder@ == (ConnectOptionsBuilderView { password: password@, ..old(self)@ }),
            *final(self) == *final(builder),
    {
        self.password = password.to_string();
        self
    }

    /// Sets the time interval to allow the connect to complete: the whole
    /// seconds of `timeout`, with zero raised to one.
    pub fn connect_timeout(&mut self, timeout: Duration) -> (builder: &mut ConnectOptionsBuilder)
        ensures
            builder@ == (ConnectOptionsBuilderView {
                copts: BoundaryRecord {
                    connect_timeout: at_least_one(whole_seconds(timeout)),
                    ..old(self)@.copts
                },
                ..old(self)@
            }),
            *final(self) == *final(builder),
    {
        self.copts.connect_timeout = interval_seconds(timeout);
        self
    }

    /// Sets the retry interval: the whole seconds of `interval`, with zero
    /// raised to one. The value goes into the retry-interval field of the
    /// record; the connect timeout keeps its value.
    pub fn retry_interval(&mut self, interval: Duration) -> (builder: &mut ConnectOptionsBuilder)
        ensures
            builder@ == (ConnectOptionsBuilderView {
                copts: BoundaryRecord {
                    retry_interval: at_least_one(whole_seconds(interval)),
                    ..old(self)@.copts
                },
                ..old(self)@
            }),
            *final(self) == *final(builder),
    {
        self.copts.retry_interval = interval_seconds(interval);
        self
    }

    /// Sets the client to automatically reconnect if the connection is
    /// lost. Both bounds are stored as their whole seconds, with zero
    /// raised to one, whether or not the minimum exceeds the maximum.
    pub fn automatic_reconnect(
        &mut self,
        min_retry_interval: Duration,
        max_retry_interval: Duration,
    ) -> (builder: &mut ConnectOptionsBuilder)
        ensures
            builder@ == (ConnectOptionsBuilderView {
                copts: BoundaryRecord {
                    automatic_reconnect: 1,
                    min_retry_interval: at_least_one(whole_seconds(min_retry_interval)),
                    max_retry_interval: at_least_one(whole_seconds(max_retry_interval)),
                    ..old(self)@.copts
                },
                ..old(self)@
            }),
            *final(self) == *final(builder),
    {
        self.copts.automatic_reconnect = 1;
        self.copts.min_retry_interval = interval_seconds(min_retry_interval);
        self.copts.max_retry_interval = interval_seconds(max_retry_interval);
        self
    }

    /// Finalize the builder to create the connect options.
    ///
    /// The builder is left as it is and can be finalized again; each call
    /// builds an aggregate with storage of its own.
    pub fn finalize(&self) -> (result: Result<ConnectOptions, ConfigError>)
        ensures
            result is Ok <==> self@.encodable(),
            match result {
                Ok(opts) => self@.finalized() == Ok::<ConnectOptionsView, ConfigError>(opts@)
                    && opts@.well_formed(),
                Err(e) => self@.finalized() == Err::<ConnectOptionsView, ConfigError>(e),
            },
    {
        let user_name = match EncodedText::new(self.user_name.as_str()) {
            Ok(text) => text,
            Err(e) => {
                return Err(e);
            },
        };
        let password = match EncodedText::new(self.password.as_str()) {
            Ok(text) => text,
            Err(e) => {
                return Err(e);
            },
        };
        let opts = ConnectOptions {
            copts: self.copts,
            will: match &self.will {
                Some(will) => Some(Box::new(will.clone())),
                None => None,
            },
            ssl: match &self.ssl {
                Some(ssl) => Some(Box::new(ssl.clone())),
                None => None,
            },
            user_name,
            password,
        };
        Ok(ConnectOptions::fixup(opts))
    }
}

/// Deriving the addresses twice gives what deriving them once gives.
pub proof fn lemma_fixup_idempotent(opts: ConnectOptionsView)
    ensures
        opts.fixed_up().fixed_up() == opts.fixed_up(),
{
}

/// Whatever the record's addresses held before, after they are derived
/// every one of them designates a slot of these same options, and it is
/// null exactly when that slot holds nothing. The storage, the tag, the
/// version and the scalars are the ones from before.
pub proof fn lemma_fixup_well_formed(opts: ConnectOptionsView)
    ensures
        opts.fixed_up().well_formed(),
        opts.fixed_up().copts.same_scalars(opts.copts),
        opts.fixed_up().will == opts.will,
        opts.fixed_up().ssl == opts.ssl,
        opts.fixed_up().user_name == opts.user_name,
        opts.fixed_up().password == opts.password,
{
}

/// Options are well formed exactly when deriving their addresses changes
/// nothing.
pub proof fn lemma_well_formed_is_fixed_point(opts: ConnectOptionsView)
    ensures
        opts.well_formed() <==> opts.fixed_up() == opts,
{
}

/// In well-formed options no address dangles: an address field is
/// non-null exactly when it resolves, and it resolves to the content of
/// its own slot.
pub proof fn lemma_addresses_resolve(opts: ConnectOptionsView)
    requires
        opts.well_formed(),
    ensures
        opts.will_target() == opts.will,
        opts.ssl_target() == opts.ssl,
        opts.copts.will != Address::Null <==> opts.will is Some,
        opts.copts.ssl != Address::Null <==> opts.ssl is Some,
        opts.copts.username != Address::Null <==> opts.user_name.len() > 0,
        opts.copts.password != Address::Null <==> opts.password.len() > 0,
        opts.copts.username != Address::Null ==> opts.user_name_target() == Some(opts.user_name),
        opts.copts.password != Address::Null ==> opts.password_target() == Some(opts.password),
{
}

/// A duplicate, which is the deep copy with its addresses derived anew,
/// resolves every address against the storage it holds itself: whatever
/// the source's addresses were, and whatever becomes of the source, the
/// duplicate's addresses lead to the values that were copied.
pub proof fn lemma_duplicate_owns_its_targets(source: ConnectOptionsView)
    ensures
        source.fixed_up().well_formed(),
        source.fixed_up().will_target() == source.will,
        source.fixed_up().ssl_target() == source.ssl,
        source.well_formed() ==> source.fixed_up() == source,
{
}

/// Toggling the clean-session flag touches a scalar only: the addresses
/// stay as they were, so well-formed options stay well formed, and every
/// address resolves to what it resolved to before.
pub proof fn lemma_clean_session_keeps_addresses(opts: ConnectOptionsView, clean: bool)
    ensures
        opts.well_formed() ==> opts.with_clean_session(clean).well_formed(),
        opts.with_clean_session(clean).will_target() == opts.will_target(),
        opts.with_clean_session(clean).ssl_target() == opts.ssl_target(),
        opts.with_clean_session(clean).user_name_target() == opts.user_name_target(),
        opts.with_clean_session(clean).password_target() == opts.password_target(),
        (opts.with_clean_session(clean).copts.clean_session != 0) == clean,
{
}

/// When a builder that holds both sub-configurations finalizes, the
/// record's will and security addresses are non-null and resolve to the
/// very values the builder was given.
pub proof fn lemma_finalized_subconfigurations_resolve(builder: ConnectOptionsBuilderView)
    requires
        builder.will is Some,
        builder.ssl is Some,
        builder.encodable(),
    ensures
        builder.finalized() is Ok,
        builder.finalized()->Ok_0.well_formed(),
        builder.finalized()->Ok_0.copts.will != Address::Null,
        builder.finalized()->Ok_0.copts.ssl != Address::Null,
        builder.finalized()->Ok_0.will_target() == builder.will,
        builder.finalized()->Ok_0.ssl_target() == builder.ssl,
{
}

/// Finalizing fails, with `InvalidConfig`, exactly when a credential has no
/// terminated encoding. When it succeeds it keeps every scalar the builder
/// collected and holds each credential in its UTF-8 form, free of zero
/// bytes.
pub proof fn lemma_finalize_outcome(builder: ConnectOptionsBuilderView)
    ensures
        builder.finalized() is Ok <==> builder.encodable(),
        builder.finalized() is Err ==> builder.finalized() == Err::<
            ConnectOptionsView,
            ConfigError,
        >(ConfigError::InvalidConfig),
        builder.finalized() is Ok ==> {
            &&& builder.finalized()->Ok_0.copts.same_scalars(builder.copts)
            &&& builder.finalized()->Ok_0.user_name == encode_utf8(builder.user_name)
            &&& builder.finalized()->Ok_0.password == encode_utf8(builder.password)
            &&& !has_terminator(builder.finalized()->Ok_0.user_name)
            &&& !has_terminator(builder.finalized()->Ok_0.password)
        },
{
}

/// A builder's credentials can be encoded exactly when neither text holds
/// the character with code zero.
pub proof fn lemma_encodable_iff_no_nul_char(builder: ConnectOptionsBuilderView)
    ensures
        builder.encodable() <==> !has_nul_char(builder.user_name) && !has_nul_char(
            builder.password,
        ),
{
    lemma_terminator_iff_nul_char(builder.user_name);
    lemma_terminator_iff_nul_char(builder.password);
}

} // verus!
