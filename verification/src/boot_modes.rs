//! Fastboot boot-mode state and A/B slot bookkeeping.

use vstd::prelude::*;

verus! {

/// The boot slot a device runs from.
///
/// `NoSlot` is the explicit state of an A-only device. The A/B predicates are
/// pure functions of this value and are never separately settable.
#[derive(Clone, Copy, Debug, PartialEq, Eq, Structural)]
pub enum BootSlot {
    A,
    B,
    NoSlot,
}

/// The slot letter reported over Fastboot: `a`, `b`, or nothing on an A-only
/// device.
pub open spec fn spec_slot_char(s: BootSlot) -> Option<char> {
    match s {
        BootSlot::A => Option::Some('a'),
        BootSlot::B => Option::Some('b'),
        BootSlot::NoSlot => Option::None,
    }
}

/// Derived predicate: the device is an A/B device.
pub open spec fn spec_is_ab(s: BootSlot) -> bool {
    s != BootSlot::NoSlot
}

/// Derived predicate: the device is an A-only device.
pub open spec fn spec_is_a_only(s: BootSlot) -> bool {
    s == BootSlot::NoSlot
}

/// Law: for every slot state, exactly one of `spec_is_ab` and
/// `spec_is_a_only` holds, and the reported slot letter is never both `a`
/// and `b`.
pub proof fn lemma_slot_predicates(s: BootSlot)
    ensures
        spec_is_ab(s) != spec_is_a_only(s),
        !(spec_slot_char(s) == Option::Some('a') && spec_slot_char(s) == Option::Some('b')),
        spec_is_ab(s) == (spec_slot_char(s) is Some),
{
}

/// States of the Fastboot control flow.
#[derive(Clone, Copy, Debug, PartialEq, Eq, Structural)]
pub enum FastbootState {
    /// No session; waiting for a USB connection.
    Idle,
    /// USB link is up, handshake possible.
    UsbConnected,
    /// A transmission is in progress.
    Transmitting,
    /// A flash operation is running.
    Flashing,
}

/// One sampled transition of the Fastboot state machine.
///
/// Transitions are driven by the externally sampled predicates, never by
/// internal timers: losing USB aborts any session back to `Idle` for a fresh
/// handshake; `tx` gates `UsbConnected` to `Transmitting`; a flash command
/// enters `Flashing` only when storage is available, otherwise the transition
/// fails and the state stays `Transmitting`; a completed flash returns to
/// `Idle`.
pub open spec fn spec_step(
    s: FastbootState,
    usb: bool,
    tx: bool,
    flash_requested: bool,
    storage_available: bool,
) -> FastbootState {
    if !usb {
        FastbootState::Idle
    } else {
        match s {
            FastbootState::Idle => FastbootState::UsbConnected,
            FastbootState::UsbConnected => if tx {
                FastbootState::Transmitting
            } else {
                FastbootState::UsbConnected
            },
            FastbootState::Transmitting => if flash_requested && storage_available {
                FastbootState::Flashing
            } else {
                FastbootState::Transmitting
            },
            FastbootState::Flashing => FastbootState::Idle,
        }
    }
}

/// Law: a USB disconnect resets every state to `Idle` on the next sampled
/// transition — a transport hiccup is non-fatal and never leaves the session
/// mid-flight.
pub proof fn lemma_usb_disconnect_resets(
    s: FastbootState,
    tx: bool,
    flash_requested: bool,
    storage_available: bool,
)
    ensures
        spec_step(s, false, tx, flash_requested, storage_available) == FastbootState::Idle,
{
}

/// Law: `Flashing` is entered only from `Transmitting`, over a live USB
/// connection, on a flash request, and only when storage is available —
/// unavailable (or forbidden) storage fails the transition.
pub proof fn lemma_flashing_gated_by_storage(
    s: FastbootState,
    usb: bool,
    tx: bool,
    flash_requested: bool,
    storage_available: bool,
)
    ensures
        spec_step(s, usb, tx, flash_requested, storage_available) == FastbootState::Flashing
            ==> s == FastbootState::Transmitting && usb && flash_requested && storage_available,
{
}

/// Mathematical view of a Fastboot session.
pub struct FastbootView {
    /// Last sampled USB link state.
    pub usb_connected: bool,
    /// Last sampled transmission state.
    pub tx_in_progress: bool,
    /// Last sampled storage availability; false whenever the target device
    /// is forbidden or unavailable.
    pub storage_available: bool,
    /// The boot slot the controller reports against; read-only here.
    pub slot: BootSlot,
    /// Product name reported over Fastboot.
    pub product: Seq<char>,
    /// Manufacturer name reported over Fastboot.
    pub manufacturer: Seq<char>,
}

/// Capability interface of a Fastboot device.
///
/// The slot predicates are read-only views over the device's `BootSlot`;
/// slot switching is an external policy action the device merely reports
/// against.
pub trait Fastboot {
    /// Mathematical view of the session this device reports.
    spec fn fb(&self) -> FastbootView;

    /// Last sampled USB link state.
    fn is_usb_connected(&self) -> (r: bool)
        ensures
            r == self.fb().usb_connected,
    ;

    /// Last sampled transmission state.
    fn is_tx_in_progress(&self) -> (r: bool)
        ensures
            r == self.fb().tx_in_progress,
    ;

    /// Last sampled storage availability; false whenever the target device
    /// or slot is forbidden or unavailable.
    fn is_storage_available(&self) -> (r: bool)
        ensures
            r == self.fb().storage_available,
    ;

    /// The current slot letter, or nothing on a non-A/B device.
    fn current_slot(&self) -> (r: Option<char>)
        ensures
            r == spec_slot_char(self.fb().slot),
    ;

    /// Derived: whether the current slot is A.
    fn current_slot_is_a(&self) -> (r: bool)
        ensures
            r == (self.fb().slot == BootSlot::A),
    {
        if let Option::Some(slot) = self.current_slot() {
            slot == 'a'
        } else {
            false
        }
    }

    /// Derived: whether the current slot is B.
    fn current_slot_is_b(&self) -> (r: bool)
        ensures
            r == (self.fb().slot == BootSlot::B),
    {
        if let Option::Some(slot) = self.current_slot() {
            slot == 'b'
        } else {
            false
        }
    }

    /// Derived: an A/B device is one whose current slot is set.
    fn is_ab_device(&self) -> (r: bool)
        ensures
            r == spec_is_ab(self.fb().slot),
    {
        self.current_slot().is_some()
    }

    /// Derived: an A-only device is one without a current slot.
    fn is_a_only_device(&self) -> (r: bool)
        ensures
            r == spec_is_a_only(self.fb().slot),
    {
        self.current_slot().is_none()
    }

    /// Product name reported over Fastboot.
    fn get_product_name(&self) -> (r: &'static str)
        ensures
            r@ == self.fb().product,
    ;

    /// Manufacturer name reported over Fastboot.
    fn get_manufacturer_name(&self) -> (r: &'static str)
        ensures
            r@ == self.fb().manufacturer,
    ;
}

/// Fastboot session state of one device: the sampled hardware signals, the
/// control-flow state, and the slot it reports against.
///
/// The session is transient: a boot stage creates it on entering Fastboot
/// mode and drops it on exit.
pub struct FastbootController {
    state: FastbootState,
    usb_connected: bool,
    tx_in_progress: bool,
    storage_available: bool,
    slot: BootSlot,
    product: &'static str,
    manufacturer: &'static str,
}

impl FastbootController {
    /// Enter Fastboot mode: no signals sampled yet, control flow at `Idle`.
    pub fn new(slot: BootSlot, product: &'static str, manufacturer: &'static str) -> (r: Self)
        ensures
            r.state_view() == FastbootState::Idle,
            r.fb() == (FastbootView {
                usb_connected: false,
                tx_in_progress: false,
                storage_available: false,
                slot,
                product: product@,
                manufacturer: manufacturer@,
            }),
    {
        FastbootController {
            state: FastbootState::Idle,
            usb_connected: false,
            tx_in_progress: false,
            storage_available: false,
            slot,
            product,
            manufacturer,
        }
    }

    /// The control-flow state.
    pub closed spec fn state_view(&self) -> FastbootState {
        self.state
    }

    /// Current control-flow state.
    pub fn state(&self) -> (r: FastbootState)
        ensures
            r == self.state_view(),
    {
        self.state
    }

    /// Sample the externally supplied hardware signals.
    ///
    /// Storage availability is reported false whenever the target device is
    /// forbidden or its medium absent: the raw ready signal is masked by the
    /// device's forbidden flag, so a later flash command fails its transition
    /// instead of reaching `Flashing`.
    pub fn sample(&mut self, usb: bool, tx: bool, storage_ready: bool, target_forbidden: bool)
        ensures
            final(self).state_view() == old(self).state_view(),
            final(self).fb() == (FastbootView {
                usb_connected: usb,
                tx_in_progress: tx,
                storage_available: storage_ready && !target_forbidden,
                ..old(self).fb()
            }),
    {
        self.usb_connected = usb;
        self.tx_in_progress = tx;
        self.storage_available = storage_ready && !target_forbidden;
    }

    /// Take one transition of the state machine, driven by the last sampled
    /// signals and an optional flash command.
    pub fn step(&mut self, flash_requested: bool)
        ensures
            final(self).state_view() == spec_step(
                old(self).state_view(),
                old(self).fb().usb_connected,
                old(self).fb().tx_in_progress,
                flash_requested,
                old(self).fb().storage_available,
            ),
            final(self).fb() == old(self).fb(),
    {
        if !self.usb_connected {
            self.state = FastbootState::Idle;
        } else {
            self.state = match self.state {
                FastbootState::Idle => FastbootState::UsbConnected,
                FastbootState::UsbConnected => if self.tx_in_progress {
                    FastbootState::Transmitting
                } else {
                    FastbootState::UsbConnected
                },
                FastbootState::Transmitting => if flash_requested && self.storage_available {
                    FastbootState::Flashing
                } else {
                    FastbootState::Transmitting
                },
                FastbootState::Flashing => FastbootState::Idle,
            };
        }
    }
}

impl Fastboot for FastbootController {
    closed spec fn fb(&self) -> FastbootView {
        FastbootView {
            usb_connected: self.usb_connected,
            tx_in_progress: self.tx_in_progress,
            storage_available: self.storage_available,
            slot: self.slot,
            product: self.product@,
            manufacturer: self.manufacturer@,
        }
    }

    fn is_usb_connected(&self) -> (r: bool) {
        self.usb_connected
    }

    fn is_tx_in_progress(&self) -> (r: bool) {
        self.tx_in_progress
    }

    fn is_storage_available(&self) -> (r: bool) {
        self.storage_available
    }

    fn current_slot(&self) -> (r: Option<char>) {
        match self.slot {
            BootSlot::A => Option::Some('a'),
            BootSlot::B => Option::Some('b'),
            BootSlot::NoSlot => Option::None,
        }
    }

    fn get_product_name(&self) -> (r: &'static str) {
        self.product
    }

    fn get_manufacturer_name(&self) -> (r: &'static str) {
        self.manufacturer
    }
}

} // verus!
