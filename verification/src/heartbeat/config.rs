use vstd::prelude::*;

verus! {

/// The role a container plays in heartbeat monitoring.
#[derive(Debug, Clone, Copy, PartialEq, Eq, Structural)]
pub enum HeartbeatMode {
    Sender,
    Receiver,
    Disabled,
}

/// Settings of a container that polls other containers.
#[derive(Debug, Clone)]
pub struct HeartbeatSenderConfig {
    pub interval_ms: u64,
    pub response_timeout_ms: u64,
    pub targets: Vec<String>,
}

/// Settings of a container that is polled.
#[derive(Debug, Clone, Copy)]
pub struct HeartbeatReceiverConfig {
    /// How long to wait without receiving a request before triggering the timeout handler.
    pub timeout_ms: u64,
}

/// Heartbeat settings of a container.
#[derive(Debug, Clone)]
pub struct HeartbeatConfig {
    pub mode: HeartbeatMode,
    pub sender: Option<HeartbeatSenderConfig>,
    pub receiver: Option<HeartbeatReceiverConfig>,
}

/// The names of a list of strings, in order.
pub open spec fn names_of(v: Seq<String>) -> Seq<Seq<char>> {
    v.map_values(|s: String| s@)
}

/// Whether `c` is the configuration of a sender with these settings.
pub open spec fn is_sender_config(
    c: HeartbeatConfig,
    interval_ms: u64,
    response_timeout_ms: u64,
    targets: Seq<Seq<char>>,
) -> bool {
    &&& c.mode == HeartbeatMode::Sender
    &&& c.receiver is None
    &&& c.sender matches Some(s) && s.interval_ms == interval_ms && s.response_timeout_ms
        == response_timeout_ms && names_of(s.targets@) == targets
}

/// Whether `c` is the configuration of a receiver with this timeout.
pub open spec fn is_receiver_config(c: HeartbeatConfig, timeout_ms: u64) -> bool {
    &&& c.mode == HeartbeatMode::Receiver
    &&& c.sender is None
    &&& c.receiver matches Some(r) && r.timeout_ms == timeout_ms
}

impl HeartbeatConfig {
    /// Configuration of a container that polls `targets` every `interval_ms` and counts a request
    /// as missed after `response_timeout_ms`.
    pub fn sender(interval_ms: u64, response_timeout_ms: u64, targets: Vec<String>) -> (c: Self)
        ensures
            is_sender_config(c, interval_ms, response_timeout_ms, names_of(targets@)),
            c.sender matches Some(s) && s.targets == targets,
    {
        HeartbeatConfig {
            mode: HeartbeatMode::Sender,
            sender: Some(HeartbeatSenderConfig { interval_ms, response_timeout_ms, targets }),
            receiver: None,
        }
    }

    /// Configuration of a container that expects a request at least every `timeout_ms`.
    pub fn receiver(timeout_ms: u64) -> (c: Self)
        ensures
            is_receiver_config(c, timeout_ms),
    {
        HeartbeatConfig {
            mode: HeartbeatMode::Receiver,
            sender: None,
            receiver: Some(HeartbeatReceiverConfig { timeout_ms }),
        }
    }

    /// Configuration of a container without heartbeats.
    pub fn disabled() -> (c: Self)
        ensures
            c.mode == HeartbeatMode::Disabled,
            c.sender is None,
            c.receiver is None,
    {
        HeartbeatConfig { mode: HeartbeatMode::Disabled, sender: None, receiver: None }
    }
}

/// The `<target>` entries of a heartbeat section.
#[derive(Debug, Clone)]
pub struct HeartbeatTargets {
    pub targets: Vec<String>,
}

/// Heartbeat configuration as it appears in a component's configuration file under the
/// `<container>` section.
#[derive(Debug, Clone)]
pub struct HeartbeatXml {
    pub mode: String,
    pub interval_ms: Option<u64>,
    pub response_timeout_ms: Option<u64>,
    pub targets: Option<HeartbeatTargets>,
    pub timeout_ms: Option<u64>,
}

/// Why a heartbeat section cannot be turned into a configuration.
#[derive(Debug, Clone, Copy, PartialEq, Eq, Structural)]
pub enum HeartbeatXmlError {
    /// Mode is `sender` but `interval_ms` is missing.
    MissingInterval,
    /// Mode is `sender` but `response_timeout_ms` is missing.
    MissingResponseTimeout,
    /// Mode is `receiver` but `timeout_ms` is missing.
    MissingTimeout,
    /// Mode is none of `sender`, `receiver`, `disabled`.
    UnknownMode,
}

pub open spec fn mode_sender() -> Seq<char> {
    seq!['s', 'e', 'n', 'd', 'e', 'r']
}

pub open spec fn mode_receiver() -> Seq<char> {
    seq!['r', 'e', 'c', 'e', 'i', 'v', 'e', 'r']
}

pub open spec fn mode_disabled() -> Seq<char> {
    seq!['d', 'i', 's', 'a', 'b', 'l', 'e', 'd']
}

/// The targets a section names: those of its `<targets>` entry, or none without one.
pub open spec fn xml_targets(x: HeartbeatXml) -> Seq<Seq<char>> {
    match x.targets {
        Some(t) => names_of(t.targets@),
        None => Seq::empty(),
    }
}

/// What is wrong with a section, if anything, checked in the order the fields are read.
pub open spec fn xml_error(x: HeartbeatXml) -> Option<HeartbeatXmlError> {
    if x.mode@ == mode_sender() {
        if x.interval_ms is None {
            Some(HeartbeatXmlError::MissingInterval)
        } else if x.response_timeout_ms is None {
            Some(HeartbeatXmlError::MissingResponseTimeout)
        } else {
            None
        }
    } else if x.mode@ == mode_receiver() {
        if x.timeout_ms is None {
            Some(HeartbeatXmlError::MissingTimeout)
        } else {
            None
        }
    } else if x.mode@ == mode_disabled() {
        None
    } else {
        Some(HeartbeatXmlError::UnknownMode)
    }
}

/// The three modes are accepted: a `disabled` section is valid whatever else it holds, a
/// `receiver` section is valid once it gives its timeout, and a `sender` section once it gives its
/// interval and response timeout. A section is refused for its mode only when the mode is none of
/// the three.
pub proof fn lemma_known_modes_accepted(x: HeartbeatXml)
    ensures
        x.mode@ == mode_disabled() ==> xml_error(x) is None,
        x.mode@ == mode_receiver() && x.timeout_ms is Some ==> xml_error(x) is None,
        x.mode@ == mode_sender() && x.interval_ms is Some && x.response_timeout_ms is Some
            ==> xml_error(x) is None,
        xml_error(x) == Some(HeartbeatXmlError::UnknownMode) <==> (x.mode@ != mode_sender()
            && x.mode@ != mode_receiver() && x.mode@ != mode_disabled()),
{
    assert(mode_sender() != mode_receiver()) by {
        assert(mode_sender().len() != mode_receiver().len());
    }
    assert(mode_sender() != mode_disabled()) by {
        assert(mode_sender().len() != mode_disabled().len());
    }
    assert(mode_receiver() != mode_disabled()) by {
        assert(mode_receiver()[0] != mode_disabled()[0]);
    }
}

fn text_equals(a: &String, b: &str) -> (eq: bool)
    ensures
        eq == (a@ == b@),
{
    let owned: String = b.to_owned();
    *a == owned
}

impl HeartbeatXml {
    /// What is wrong with this section, if anything: `Ok` exactly when `to_config` accepts it.
    pub fn validate(&self) -> (r: Result<(), HeartbeatXmlError>)
        ensures
            match r {
                Ok(()) => xml_error(*self) is None,
                Err(e) => xml_error(*self) == Some(e),
            },
            self.mode@ == mode_disabled() ==> r is Ok,
            self.mode@ == mode_receiver() ==> (r is Ok <==> self.timeout_ms is Some),
            self.mode@ == mode_receiver() && self.timeout_ms is None ==> r == Err::<
                (),
                HeartbeatXmlError,
            >(HeartbeatXmlError::MissingTimeout),
            self.mode@ == mode_sender() ==> (r is Ok <==> (self.interval_ms is Some
                && self.response_timeout_ms is Some)),
            self.mode@ == mode_sender() && self.interval_ms is None ==> r == Err::<
                (),
                HeartbeatXmlError,
            >(HeartbeatXmlError::MissingInterval),
            self.mode@ == mode_sender() && self.interval_ms is Some && self.response_timeout_ms is None
                ==> r == Err::<(), HeartbeatXmlError>(HeartbeatXmlError::MissingResponseTimeout),
            r == Err::<(), HeartbeatXmlError>(HeartbeatXmlError::UnknownMode) <==> (self.mode@
                != mode_sender() && self.mode@ != mode_receiver() && self.mode@ != mode_disabled()),
    {
        proof {
            reveal_strlit("sender");
            reveal_strlit("receiver");
            reveal_strlit("disabled");
        }
        if text_equals(&self.mode, "sender") {
            assert("sender"@ =~= mode_sender());
            if self.interval_ms.is_none() {
                Err(HeartbeatXmlError::MissingInterval)
            } else if self.response_timeout_ms.is_none() {
                Err(HeartbeatXmlError::MissingResponseTimeout)
            } else {
                Ok(())
            }
        } else if text_equals(&self.mode, "receiver") {
            assert("sender"@ =~= mode_sender());
            assert("receiver"@ =~= mode_receiver());
            if self.timeout_ms.is_none() {
                Err(HeartbeatXmlError::MissingTimeout)
            } else {
                Ok(())
            }
        } else if text_equals(&self.mode, "disabled") {
            assert("sender"@ =~= mode_sender());
            assert("receiver"@ =~= mode_receiver());
            assert("disabled"@ =~= mode_disabled());
            Ok(())
        } else {
            assert("sender"@ =~= mode_sender());
            assert("receiver"@ =~= mode_receiver());
            assert("disabled"@ =~= mode_disabled());
            Err(HeartbeatXmlError::UnknownMode)
        }
    }

    /// The configuration this section describes: a sender with its interval, response timeout and
    /// targets (none when the section lists none); a receiver with its timeout; `None` when
    /// heartbeats are disabled.
    pub fn to_config(&self) -> (c: Option<HeartbeatConfig>)
        requires
            xml_error(*self) is None,
        ensures
            self.mode@ == mode_sender() ==> (c matches Some(cfg) && is_sender_config(
                cfg,
                self.interval_ms->0,
                self.response_timeout_ms->0,
                xml_targets(*self),
            )),
            self.mode@ == mode_receiver() ==> (c matches Some(cfg) && is_receiver_config(
                cfg,
                self.timeout_ms->0,
            )),
            self.mode@ == mode_disabled() ==> c is None,
    {
        proof {
            reveal_strlit("sender");
            reveal_strlit("receiver");
            reveal_strlit("disabled");
        }
        assert("sender"@ =~= mode_sender());
        assert("receiver"@ =~= mode_receiver());
        assert("disabled"@ =~= mode_disabled());
        if text_equals(&self.mode, "sender") {
            let interval_ms = self.interval_ms.unwrap();
            let response_timeout_ms = self.response_timeout_ms.unwrap();
            let targets: Vec<String> = match &self.targets {
                Some(t) => copy_names(&t.targets),
                None => Vec::new(),
            };
            assert(names_of(targets@) =~= xml_targets(*self));
            Some(HeartbeatConfig::sender(interval_ms, response_timeout_ms, targets))
        } else if text_equals(&self.mode, "receiver") {
            Some(HeartbeatConfig::receiver(self.timeout_ms.unwrap()))
        } else {
            None
        }
    }
}

/// A copy of a list of names.
pub fn copy_names(names: &Vec<String>) -> (copy: Vec<String>)
    ensures
        names_of(copy@) == names_of(names@),
{
    let mut copy: Vec<String> = Vec::new();
    let mut i: usize = 0;
    while i < names.len()
        invariant
            0 <= i <= names@.len(),
            copy@.len() == i,
            forall|j: int| 0 <= j < i ==> #[trigger] copy@[j]@ == names@[j]@,
        decreases names@.len() - i,
    {
        let c: String = names[i].clone();
        assert(c@ == names@[i as int]@);
        copy.push(c);
        i = i + 1;
    }
    assert(names_of(copy@) =~= names_of(names@));
    copy
}

} // verus!
