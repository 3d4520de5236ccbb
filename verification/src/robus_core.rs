//! The node core: one per microcontroller, multiplexing the local
//! modules onto the shared half-duplex line.
//!
//! The core owns the module registry, the reception accumulator, the
//! TX-lock, and the peripheral handle. Two contexts drive it: the main
//! loop calls `send`, and the interrupt bridges call `receive` for every
//! UART byte and `timeout` when the inter-frame timer fires. Received
//! frames are matched against the registry; the caller applies the
//! module callbacks to the handles reported back, since the callbacks
//! themselves live with the surrounding application.

use vstd::prelude::*;
use vstd::string::StringSliceAdditionalSpecFns;

use crate::error::ParsingError;
use crate::header::Header;
use crate::mod_type::ModuleType;
use crate::module::Module;
use crate::msg::Message;
use crate::recv_buf::acc_after_get;
use crate::recv_buf::acc_flush;
use crate::recv_buf::acc_fresh;
use crate::recv_buf::acc_get;
use crate::recv_buf::acc_push;
use crate::recv_buf::acc_wf;
use crate::recv_buf::RecvBuf;
use crate::recv_buf::RecvView;
use crate::registry::dispatch_ok;
use crate::registry::Registry;
use crate::MAX_ALIAS_SIZE;
use crate::MAX_DATA_SIZE;
use crate::MAX_ID_VAL;

verus! {

/// The inter-frame timeout spans this many byte times: any longer gap
/// on the line is taken as a frame boundary.
const TIMEOUT_FACTOR: u32 = 2;

/// The hardware surface a board hands to the core: serial output, the
/// two transceiver direction lines, and the inter-frame one-shot timer.
///
/// A board support layer implements this for its UART, GPIO, and timer;
/// its interrupt handlers feed received bytes to `Core::receive` and
/// timer fires to `Core::timeout`.
pub trait Peripherals {
    /// Current line rate in bits per second, used to size the
    /// inter-frame timeout.
    fn baudrate(&self) -> u32;

    /// Hands one byte to the UART, blocking until it is accepted.
    fn write_byte(&mut self, byte: u8);

    /// Drives the transceiver's driver-enable line; high together with
    /// `set_receiver_enable(true)` turns the line around for transmit.
    fn set_driver_enable(&mut self, enabled: bool);

    /// Drives the transceiver's inverted receiver-enable line; low
    /// together with `set_driver_enable(false)` listens.
    fn set_receiver_enable(&mut self, enabled: bool);

    /// (Re)arms the one-shot inter-frame timer.
    fn start_timeout(&mut self, ticks: u32);
}

/// The protocol engine of one node.
pub struct Core<P: Peripherals> {
    p: P,
    registry: Registry,
    recv_buf: RecvBuf,
    tx_lock: bool,
    timeout_ticks: u32,
}

impl<P: Peripherals> Core<P> {
    /// The registered modules, in creation order.
    pub closed spec fn modules(&self) -> Seq<Module> {
        self.registry@
    }

    /// State of the reception accumulator.
    pub closed spec fn acc(&self) -> RecvView {
        self.recv_buf@
    }

    /// Whether the line is reserved: held from any bus activity until
    /// the inter-frame timer fires.
    pub closed spec fn tx_locked(&self) -> bool {
        self.tx_lock
    }

    /// Every registered module is well formed and the accumulator is in
    /// a reachable state.
    pub open spec fn wf(&self) -> bool {
        &&& acc_wf(self.acc())
        &&& forall|i: int| 0 <= i < self.modules().len() ==> (#[trigger] self.modules()[i]).wf()
    }

    /// A core with no modules, an empty accumulator, and the line
    /// listening. The timeout is sized to `TIMEOUT_FACTOR` byte times of
    /// ten bits each at the peripheral's baudrate.
    pub fn new(p: P) -> (r: Core<P>)
        ensures
            r.modules() == Seq::<Module>::empty(),
            r.acc() == acc_fresh(),
            !r.tx_locked(),
            r.wf(),
    {
        let baudrate = p.baudrate();
        let timeout_ticks = baudrate / (10 * TIMEOUT_FACTOR);
        let mut core = Core {
            p,
            registry: Registry::new(),
            recv_buf: RecvBuf::new(),
            tx_lock: false,
            timeout_ticks,
        };
        core.p.set_driver_enable(false);
        core.p.set_receiver_enable(false);
        core
    }

    /// Registers a module and returns its handle: the index the registry
    /// will know it by. An alias over `MAX_ALIAS_SIZE` bytes is rejected
    /// and registers nothing.
    pub fn create_module(&mut self, alias: &str, mod_type: ModuleType) -> (r: Result<
        usize,
        ParsingError,
    >)
        requires
            old(self).wf(),
        ensures
            final(self).wf(),
            final(self).acc() == old(self).acc(),
            final(self).tx_locked() == old(self).tx_locked(),
            r is Ok <==> alias.spec_bytes().len() <= MAX_ALIAS_SIZE,
            r matches Ok(handle) ==> {
                &&& handle == old(self).modules().len()
                &&& final(self).modules().len() == old(self).modules().len() + 1
                &&& final(self).modules()[handle as int].alias@ == alias.spec_bytes()
                &&& final(self).modules()[handle as int].mod_type == mod_type
                &&& final(self).modules()[handle as int].id == 0
                &&& forall|j: int|
                    0 <= j < old(self).modules().len() ==> final(self).modules()[j] == old(
                        self,
                    ).modules()[j]
            },
            r matches Err(e) ==> e == ParsingError::AliasTooLong(
                alias.spec_bytes().len() as usize,
            ) && final(self).modules() == old(self).modules(),
    {
        match Module::new(alias, mod_type) {
            Ok(module) => {
                let handle = self.registry.len();
                self.registry.add(module);
                Ok(handle)
            },
            Err(e) => Err(e),
        }
    }

    /// Gives the module behind a handle its 12-bit bus id.
    pub fn set_module_id(&mut self, mod_id: usize, robus_id: u16)
        requires
            old(self).wf(),
            mod_id < old(self).modules().len(),
            robus_id <= MAX_ID_VAL,
        ensures
            final(self).wf(),
            final(self).acc() == old(self).acc(),
            final(self).tx_locked() == old(self).tx_locked(),
            final(self).modules() == old(self).modules().update(
                mod_id as int,
                (Module { id: robus_id, ..old(self).modules()[mod_id as int] }),
            ),
    {
        self.registry.set_module_id(mod_id, robus_id);
    }

    /// Takes one received byte, from the UART interrupt: incoming
    /// activity reserves the line, the inter-frame timer restarts, and
    /// the byte goes to the accumulator. When it completes a valid
    /// frame, the message is returned with the handles of the modules it
    /// is for, in registry order; the caller applies their callbacks.
    /// An invalid frame is dropped silently.
    pub fn receive(&mut self, byte: u8) -> (r: Option<(Message, Vec<usize>)>)
        requires
            old(self).wf(),
        ensures
            final(self).wf(),
            final(self).tx_locked(),
            final(self).modules() == old(self).modules(),
            ({
                let mid = acc_push(old(self).acc(), byte);
                &&& final(self).acc() == acc_after_get(mid)
                &&& (r is Some) == (acc_get(mid) is Some)
                &&& r matches Some((m, targets)) ==> acc_get(mid) == Some((m.header, m.data@))
                    && dispatch_ok(old(self).modules(), m.header, targets@)
            }),
    {
        self.tx_lock = true;
        self.p.start_timeout(self.timeout_ticks);
        self.recv_buf.push(byte);
        proof {
            assert forall|i: int|
                0 <= i < self.modules().len() implies (#[trigger] self.modules()[i]).wf() by {
                assert(old(self).modules()[i].wf());
            }
        }
        match self.recv_buf.get_message() {
            Some(message) => {
                let targets = self.registry.find_targeted_modules(&message);
                Some((message, targets))
            },
            None => None,
        }
    }

    /// Handles a fire of the inter-frame timer: the line has been idle
    /// past the guard interval, so the TX-lock is released and any
    /// partial reception is flushed.
    pub fn timeout(&mut self)
        requires
            old(self).wf(),
        ensures
            final(self).wf(),
            !final(self).tx_locked(),
            final(self).acc() == acc_flush(old(self).acc()),
            final(self).modules() == old(self).modules(),
    {
        self.tx_lock = false;
        self.recv_buf.flush();
        proof {
            assert forall|i: int|
                0 <= i < self.modules().len() implies (#[trigger] self.modules()[i]).wf() by {
                assert(old(self).modules()[i].wf());
            }
        }
    }

    /// Sends a message from the module behind `mod_id`: stamps the
    /// module's id as `source`, turns the line around, emits the frame
    /// byte by byte, switches back to listening, and restarts the
    /// inter-frame timer. The TX-lock stays held until that timer fires.
    ///
    /// A line already reserved is free again only once the inter-frame
    /// timer fires, so a held lock is resolved by letting the timeout
    /// run its course before transmitting.
    pub fn send(&mut self, mod_id: usize, msg: &mut Message)
        requires
            old(self).wf(),
            mod_id < old(self).modules().len(),
            old(msg).header.target <= MAX_ID_VAL,
            old(msg).header.data_size <= MAX_DATA_SIZE,
        ensures
            final(self).wf(),
            final(self).tx_locked(),
            final(self).modules() == old(self).modules(),
            final(msg).header == (Header {
                source: old(self).modules()[mod_id as int].id,
                ..old(msg).header
            }),
            final(msg).data@ == old(msg).data@,
            final(self).acc() == if old(self).tx_locked() {
                acc_flush(old(self).acc())
            } else {
                old(self).acc()
            },
    {
        let id = self.registry.module_id(mod_id);
        msg.header.source = id;
        if self.tx_lock {
            self.timeout();
        }
        self.tx_lock = true;
        self.p.set_receiver_enable(true);
        self.p.set_driver_enable(true);
        let bytes = msg.to_bytes();
        let ghost registry_snap = self.registry@;
        let ghost acc_snap = self.recv_buf@;
        let mut i: usize = 0;
        while i < bytes.len()
            invariant
                self.registry@ == registry_snap,
                self.recv_buf@ == acc_snap,
                self.tx_lock,
            decreases bytes@.len() - i,
        {
            self.p.write_byte(bytes[i]);
            i = i + 1;
        }
        self.p.set_receiver_enable(false);
        self.p.set_driver_enable(false);
        self.p.start_timeout(self.timeout_ticks);
    }
}

/// Sets up bus communication: the one core of this node, built over the
/// board's peripherals. Call it once; every further module and message
/// goes through the returned core.
pub fn init<P: Peripherals>(p: P) -> (r: Core<P>)
    ensures
        r.modules() == Seq::<Module>::empty(),
        r.acc() == acc_fresh(),
        !r.tx_locked(),
        r.wf(),
{
    Core::new(p)
}

} // verus!
