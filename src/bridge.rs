//! The host-facing side of the bridge: callback registration, the one-shot
//! start, and the state setters that decide when bus peers must be notified.

use crate::flag::{in_a_row, lemma_repeated_write_changes_once, BoolFlag, FlagUpdate};
use crate::remote::Venbus;
use vstd::prelude::*;
use vstd::string::StringExecFns;

verus! {

/// Path at which the object is published.
pub const OBJECT_PATH: &'static str = "/dev/vencord";

/// Interface name of the object, also claimed as the well-known bus name.
pub const INTERFACE_NAME: &'static str = "dev.vencord";

/// Lifecycle of the bridge. `Started` holds the one live bus connection.
pub enum Phase<K> {
    Uninitialized,
    Started(K),
}

/// Which of the two host actions a callback serves.
#[derive(Clone, Copy, Debug, PartialEq, Eq, Structural)]
pub enum ActionKind {
    Mute,
    Deafen,
}

/// Errors that `start` hands back to the host.
#[derive(Debug, PartialEq, Eq)]
pub enum VenbusError {
    /// `start` was called on a bridge that already has a connection.
    AlreadyInitialized,
    /// Building the connection, publishing the object or taking the bus name
    /// failed; the text is the bus layer's description.
    ConnectionFailure(String),
}

/// Text of the `AlreadyInitialized` error.
pub open spec fn already_initialized_text() -> Seq<char> {
    "venbus already initialized"@
}

impl VenbusError {
    pub open spec fn text(self) -> Seq<char> {
        match self {
            VenbusError::AlreadyInitialized => already_initialized_text(),
            VenbusError::ConnectionFailure(d) => d@,
        }
    }

    /// The description handed to the host.
    pub fn reason(&self) -> (r: String)
        ensures
            r@ == self.text(),
    {
        match self {
            VenbusError::AlreadyInitialized => {
                proof {
                    reveal_strlit("venbus already initialized");
                }
                String::from_str("venbus already initialized")
            },
            VenbusError::ConnectionFailure(d) => d.clone(),
        }
    }
}

/// What a state setter did: the swap it made, and whether a property-change
/// notification must now be emitted on the live connection.
#[derive(Clone, Copy, Debug, PartialEq, Eq, Structural)]
pub struct SetOutcome {
    pub update: FlagUpdate,
    pub notify: bool,
}

/// A setter notifies exactly when its swap was a transition and a connection exists.
pub open spec fn notification_owed(update: FlagUpdate, started: bool) -> bool {
    update.changed() && started
}

/// The bridge the host holds. `C` is the host's callback handle, `K` the bus
/// connection.
pub struct JsVenbus<C, K> {
    phase: Phase<K>,
    callback_toggle_mute: Option<C>,
    callback_toggle_deafen: Option<C>,
    muted: BoolFlag,
    deafened: BoolFlag,
}

impl<C, K> JsVenbus<C, K> {
    pub closed spec fn started(&self) -> bool {
        self.phase is Started
    }

    pub closed spec fn live_connection(&self) -> Option<K> {
        match self.phase {
            Phase::Started(k) => Some(k),
            Phase::Uninitialized => None,
        }
    }

    pub closed spec fn mute_callback(&self) -> Option<C> {
        self.callback_toggle_mute
    }

    pub closed spec fn deafen_callback(&self) -> Option<C> {
        self.callback_toggle_deafen
    }

    /// The bridge's handles on the muted and deafened flags.
    pub closed spec fn flags(&self) -> (BoolFlag, BoolFlag) {
        (self.muted, self.deafened)
    }

    /// The callback registered for `kind`.
    pub open spec fn callback(&self, kind: ActionKind) -> Option<C> {
        match kind {
            ActionKind::Mute => self.mute_callback(),
            ActionKind::Deafen => self.deafen_callback(),
        }
    }
}

/// The other action.
pub open spec fn other_kind(kind: ActionKind) -> ActionKind {
    match kind {
        ActionKind::Mute => ActionKind::Deafen,
        ActionKind::Deafen => ActionKind::Mute,
    }
}

/// `after` is `before` with `cb` registered for `kind`: stored while no
/// connection exists, ignored once one does.
pub open spec fn registers_as<C, K>(
    before: JsVenbus<C, K>,
    after: JsVenbus<C, K>,
    kind: ActionKind,
    cb: C,
) -> bool {
    if before.started() {
        after == before
    } else {
        &&& !after.started()
        &&& after.callback(kind) == Some(cb)
        &&& after.callback(other_kind(kind)) == before.callback(other_kind(kind))
        &&& after.flags() == before.flags()
    }
}

/// What `start` does: a started bridge refuses and stays as it was; any
/// other hands its callbacks to the object to publish and keeps none, and
/// the object shares the bridge's own two flags, which the bridge keeps.
pub open spec fn starts_as<C, K>(
    before: JsVenbus<C, K>,
    after: JsVenbus<C, K>,
    r: Result<Venbus<C>, VenbusError>,
) -> bool {
    if before.started() {
        r == Err::<Venbus<C>, VenbusError>(VenbusError::AlreadyInitialized) && after == before
    } else {
        &&& r matches Ok(v)
        &&& v.mute_callback() == before.mute_callback()
        &&& v.deafen_callback() == before.deafen_callback()
        &&& v.flags() == before.flags()
        &&& after.flags() == before.flags()
        &&& !after.started()
        &&& after.mute_callback() is None
        &&& after.deafen_callback() is None
    }
}

/// What `connected` does with the outcome of building the connection.
pub open spec fn connects_as<C, K>(
    before: JsVenbus<C, K>,
    after: JsVenbus<C, K>,
    outcome: Result<K, String>,
    r: Result<(), VenbusError>,
) -> bool {
    if before.started() {
        r == Err::<(), VenbusError>(VenbusError::AlreadyInitialized) && after == before
    } else {
        match outcome {
            Ok(k) => {
                &&& r is Ok
                &&& after.started()
                &&& after.live_connection() == Some(k)
                &&& after.mute_callback() == before.mute_callback()
                &&& after.deafen_callback() == before.deafen_callback()
                &&& after.flags() == before.flags()
            },
            Err(d) => r == Err::<(), VenbusError>(VenbusError::ConnectionFailure(d)) && after
                == before,
        }
    }
}

impl<C, K> JsVenbus<C, K> {
    /// A bridge with no connection, no callbacks, and both flags false.
    pub fn new() -> (r: Self)
        ensures
            !r.started(),
            r.live_connection() is None,
            r.mute_callback() is None,
            r.deafen_callback() is None,
    {
        JsVenbus {
            phase: Phase::Uninitialized,
            callback_toggle_mute: None,
            callback_toggle_deafen: None,
            muted: BoolFlag::new(false),
            deafened: BoolFlag::new(false),
        }
    }

    /// Registers the callback for `kind`. Once the bridge has started the
    /// published object already owns its callbacks, so this does nothing.
    pub fn register(&mut self, kind: ActionKind, cb: C)
        ensures
            registers_as(*old(self), *final(self), kind, cb),
    {
        if let Phase::Started(_) = self.phase {
            return;
        }
        match kind {
            ActionKind::Mute => self.callback_toggle_mute = Some(cb),
            ActionKind::Deafen => self.callback_toggle_deafen = Some(cb),
        }
    }

    /// Registers the mute-toggle callback; ignored once started.
    pub fn callback_toggle_mute(&mut self, cb: C)
        ensures
            registers_as(*old(self), *final(self), ActionKind::Mute, cb),
    {
        self.register(ActionKind::Mute, cb)
    }

    /// Registers the deafen-toggle callback; ignored once started.
    pub fn callback_toggle_deafen(&mut self, cb: C)
        ensures
            registers_as(*old(self), *final(self), ActionKind::Deafen, cb),
    {
        self.register(ActionKind::Deafen, cb)
    }

    /// First half of starting: refuses a bridge that already has a
    /// connection, and otherwise hands the registered callbacks over to the
    /// object to publish, which shares both flags with the bridge. The
    /// bridge keeps no callback of its own afterwards.
    pub fn start(&mut self) -> (r: Result<Venbus<C>, VenbusError>)
        ensures
            starts_as(*old(self), *final(self), r),
    {
        if let Phase::Started(_) = self.phase {
            return Err(VenbusError::AlreadyInitialized);
        }
        let callback_toggle_mute = self.callback_toggle_mute.take();
        let callback_toggle_deafen = self.callback_toggle_deafen.take();
        Ok(
            Venbus::new(
                callback_toggle_mute,
                callback_toggle_deafen,
                self.muted.share(),
                self.deafened.share(),
            ),
        )
    }

    /// Second half of starting: records how building the connection ended.
    /// A new connection is kept and the bridge is started; a failure is
    /// handed back with its description and changes nothing. Should another
    /// start have finished first, the new connection is refused.
    pub fn connected(&mut self, outcome: Result<K, String>) -> (r: Result<(), VenbusError>)
        ensures
            connects_as(*old(self), *final(self), outcome, r),
    {
        if let Phase::Started(_) = self.phase {
            return Err(VenbusError::AlreadyInitialized);
        }
        match outcome {
            Ok(k) => {
                self.phase = Phase::Started(k);
                Ok(())
            },
            Err(d) => Err(VenbusError::ConnectionFailure(d)),
        }
    }

    /// The live connection, once started.
    pub fn connection(&self) -> (r: Option<&K>)
        ensures
            r is Some == self.started(),
            r matches Some(k) ==> *k == self.live_connection()->Some_0,
    {
        match &self.phase {
            Phase::Started(k) => Some(k),
            Phase::Uninitialized => None,
        }
    }

    /// Whether the bridge has a connection.
    pub fn is_started(&self) -> (r: bool)
        ensures
            r == self.started(),
    {
        match self.phase {
            Phase::Started(_) => true,
            Phase::Uninitialized => false,
        }
    }

    fn set_flag(&self, flag: &BoolFlag, state: bool) -> (r: SetOutcome)
        ensures
            r.update.current == state,
            r.notify == notification_owed(r.update, self.started()),
    {
        let update = flag.swap(state);
        let notify = update.is_change() && self.is_started();
        SetOutcome { update, notify }
    }

    /// Writes the muted flag. A notification is owed exactly when the value
    /// changed and the connection exists; the write itself always happens.
    pub fn set_muted(&self, state: bool) -> (r: SetOutcome)
        ensures
            r.update.current == state,
            r.notify == notification_owed(r.update, self.started()),
    {
        self.set_flag(&self.muted, state)
    }

    /// Writes the deafened flag, as `set_muted` does the muted one.
    pub fn set_deafened(&self, state: bool) -> (r: SetOutcome)
        ensures
            r.update.current == state,
            r.notify == notification_owed(r.update, self.started()),
    {
        self.set_flag(&self.deafened, state)
    }

    /// The muted flag as the bridge sees it.
    pub fn muted(&self) -> bool {
        self.muted.load()
    }

    /// The deafened flag as the bridge sees it.
    pub fn deafened(&self) -> bool {
        self.deafened.load()
    }
}

/// Once the bridge has started, registering a callback of either kind leaves
/// it exactly as it was: the callback for that kind is still the one (or the
/// absence of one) that was there before.
pub proof fn lemma_registration_after_start_ignored<C, K>(
    before: JsVenbus<C, K>,
    after: JsVenbus<C, K>,
    kind: ActionKind,
    cb: C,
)
    requires
        before.started(),
        registers_as(before, after, kind, cb),
    ensures
        after == before,
        after.callback(kind) == before.callback(kind),
        after.started(),
{
}

/// Setting a flag to the same value twice in a row asks for at most one
/// property-change notification, and for none when the flag already held
/// that value.
pub proof fn lemma_repeated_set_notifies_once(
    first: SetOutcome,
    second: SetOutcome,
    state: bool,
    started: bool,
)
    requires
        first.update.current == state,
        second.update.current == state,
        in_a_row(first.update, second.update),
        first.notify == notification_owed(first.update, started),
        second.notify == notification_owed(second.update, started),
    ensures
        !second.notify,
        first.update.previous == state ==> !first.notify && !second.notify,
{
    lemma_repeated_write_changes_once(first.update, second.update);
}

/// Starting is one-shot: once a connection has been recorded, a further
/// start is refused with `AlreadyInitialized` and leaves the bridge, and the
/// connection it holds, untouched.
pub proof fn lemma_start_is_one_shot<C, K>(
    before: JsVenbus<C, K>,
    started: JsVenbus<C, K>,
    outcome: Result<K, String>,
    after: JsVenbus<C, K>,
    r: Result<Venbus<C>, VenbusError>,
)
    requires
        connects_as(before, started, outcome, Ok(())),
        starts_as(started, after, r),
    ensures
        started.started(),
        r == Err::<Venbus<C>, VenbusError>(VenbusError::AlreadyInitialized),
        after == started,
        after.live_connection() == started.live_connection(),
{
}

/// One call on the bridge that may change it: a registration, a start, or
/// the recording of a connection attempt. The setters take the bridge by
/// shared reference and so leave it as it is.
pub open spec fn bridge_step<C, K>(before: JsVenbus<C, K>, after: JsVenbus<C, K>) -> bool {
    ||| after == before
    ||| exists|kind: ActionKind, cb: C| registers_as(before, after, kind, cb)
    ||| exists|r: Result<Venbus<C>, VenbusError>| starts_as(before, after, r)
    ||| exists|o: Result<K, String>, r: Result<(), VenbusError>| connects_as(before, after, o, r)
}

/// Started is terminal: along any run of calls that begins at a started
/// bridge, every bridge reached is that same bridge with the same connection,
/// and every start attempted along the way is refused with `AlreadyInitialized`.
pub proof fn lemma_started_is_terminal<C, K>(run: Seq<JsVenbus<C, K>>)
    requires
        run.len() > 0,
        run[0].started(),
        forall|i: int| 0 <= i < run.len() - 1 ==> bridge_step(#[trigger] run[i], run[i + 1]),
    ensures
        forall|i: int| 0 <= i < run.len() ==> #[trigger] run[i] == run[0],
        forall|i: int| 0 <= i < run.len() ==> (#[trigger] run[i]).live_connection()
            == run[0].live_connection(),
        forall|i: int, after: JsVenbus<C, K>, r: Result<Venbus<C>, VenbusError>|
            0 <= i < run.len() && #[trigger] starts_as(run[i], after, r) ==> r == Err::<
                Venbus<C>,
                VenbusError,
            >(VenbusError::AlreadyInitialized) && after == run[0],
    decreases run.len(),
{
    if run.len() > 1 {
        let prefix = run.drop_last();
        assert forall|i: int| 0 <= i < prefix.len() - 1 implies bridge_step(
            #[trigger] prefix[i],
            prefix[i + 1],
        ) by {
            assert(prefix[i] == run[i] && prefix[i + 1] == run[i + 1]);
        }
        lemma_started_is_terminal(prefix);
        let last = run.len() - 2;
        assert(prefix[last] == run[last]);
        assert(bridge_step(run[last], run[last + 1]));
        assert(run[last + 1] == run[0]);
        assert forall|i: int| 0 <= i < run.len() implies #[trigger] run[i] == run[0] by {
            if i < run.len() - 1 {
                assert(prefix[i] == run[i]);
            }
        }
    }
}

} // verus!
