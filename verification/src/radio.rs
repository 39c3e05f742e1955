//! Sending a packet over the radio and waiting for the answer, with retries.
//!
//! A device puts its address in front of the data it sends, and takes only a response that
//! begins with the same address, so that it can tell the answers to it from those to others.
//!
//! The exchange is a chain of states. `send_recv` begins it with a [`Pause`]. When that is
//! over, `resume` fills the packet, which is then transmitted, and what comes back is handed
//! to `reply`. That ends the exchange, or leads to another pause.

use crate::packet::{fill, payload, CAPACITY, FRAME_LEN};
use nrf52840_hal::ieee802154::Packet;
use vstd::prelude::*;

verus! {

/// How often the packet is sent before the exchange is given up.
pub const RETRY_COUNT: u32 = 10;

/// Bytes in a device address.
pub const ADDR_LEN: usize = 6;

/// Microseconds to pause before the first try.
pub const SHORT_DELAY: u32 = 5_000;

/// Microseconds to pause after a try that failed.
pub const RETRY_DELAY: u32 = 10_000;

/// The ways that a reception can fail
#[derive(Clone, Copy, Debug, PartialEq, Eq, Structural)]
pub enum RadioError {
    /// A packet with this checksum came in, and it is wrong.
    Crc(u16),
    /// Nothing came in in time.
    Timeout,
}

/// What an exchange knows, as a mathematical value.
pub struct ExchangeModel {
    /// The address of this device.
    pub id: Seq<u8>,
    /// The data to send.
    pub data: Seq<u8>,
    /// Microseconds to listen for an answer.
    pub microseconds: u32,
    /// How many tries are left.
    pub tries: nat,
}

/// What came back on one try: the driver's verdict, and the payload of the packet.
pub struct Reception {
    /// The checksum of the packet, or why there is none to use.
    pub result: Result<u16, RadioError>,
    /// The payload that was received, if one was.
    pub payload: Seq<u8>,
}

impl ExchangeModel {
    /// The payload to transmit: the address of this device, then the data.
    pub open spec fn request(self) -> Seq<u8> {
        self.id + self.data
    }

    /// Whether `payload` begins with the address of this device.
    pub open spec fn is_addressee(self, payload: Seq<u8>) -> bool {
        &&& payload.len() >= ADDR_LEN
        &&& payload.take(ADDR_LEN as int) == self.id
    }

    /// Whether `reception` answers this exchange: it is intact, and begins with the address
    /// of this device.
    pub open spec fn answered_by(self, reception: Reception) -> bool {
        &&& reception.result is Ok
        &&& self.is_addressee(reception.payload)
    }

    /// The exchange with one try less.
    pub open spec fn tried(self) -> ExchangeModel {
        ExchangeModel { tries: (self.tries - 1) as nat, ..self }
    }

    /// The pause after a try of this exchange that failed.
    pub open spec fn retried(self) -> PauseModel {
        PauseModel { exchange: self.tried(), micros: RETRY_DELAY }
    }
}

/// A pause in an exchange, as a mathematical value.
pub struct PauseModel {
    /// The exchange.
    pub exchange: ExchangeModel,
    /// Microseconds that the pause takes.
    pub micros: u32,
}

/// How an exchange goes on after a pause, as a mathematical value.
pub enum ResumedModel {
    /// With another try.
    Try(ExchangeModel),
    /// Not at all.
    GiveUp(RadioError),
}

/// How an exchange goes on after a try, as a mathematical value.
pub enum RepliedModel {
    /// It is answered, with this payload.
    Payload(Seq<u8>),
    /// With a pause.
    Retry(PauseModel),
}

/// What follows a pause: the next try, or the end where no try is left.
pub open spec fn after_pause(model: ExchangeModel) -> ResumedModel {
    if model.tries == 0 {
        ResumedModel::GiveUp(RadioError::Timeout)
    } else {
        ResumedModel::Try(model)
    }
}

/// What follows a try on which `reception` came back: the end, with what stands behind the
/// address, or a pause.
pub open spec fn after_try(model: ExchangeModel, reception: Reception) -> RepliedModel {
    if model.answered_by(reception) {
        RepliedModel::Payload(reception.payload.skip(ADDR_LEN as int))
    } else {
        RepliedModel::Retry(model.retried())
    }
}

/// The address of the device whose address registers hold `word0` and `word1`: the upper six
/// of their eight bytes, the most significant one first.
pub open spec fn device_id(word0: u32, word1: u32) -> Seq<u8> {
    seq![
        (word0 / 0x100_0000) as u8,
        (word0 / 0x1_0000 % 0x100) as u8,
        (word0 / 0x100 % 0x100) as u8,
        (word0 % 0x100) as u8,
        (word1 / 0x100_0000) as u8,
        (word1 / 0x1_0000 % 0x100) as u8,
    ]
}

/// The address of the device whose address registers hold `word0` and `word1`.
pub fn get_id(word0: u32, word1: u32) -> (id: [u8; ADDR_LEN])
    ensures
        id@ == device_id(word0, word1),
        id@[0] * 0x100_0000_0000 + id@[1] * 0x1_0000_0000 + id@[2] * 0x100_0000 + id@[3] * 0x1_0000
            + id@[4] * 0x100 + id@[5] == (word0 * 0x1_0000_0000 + word1) / 0x1_0000,
{
    proof {
        law_device_id_is_the_upper_part(word0, word1);
    }
    [
        (word0 / 0x100_0000) as u8,
        (word0 / 0x1_0000 % 0x100) as u8,
        (word0 / 0x100 % 0x100) as u8,
        (word0 % 0x100) as u8,
        (word1 / 0x100_0000) as u8,
        (word1 / 0x1_0000 % 0x100) as u8,
    ]
}

/// The state of an exchange that all of its stages share.
struct Exchange<'d> {
    id: [u8; ADDR_LEN],
    data: &'d [u8],
    microseconds: u32,
    tries: u32,
}

impl<'d> Exchange<'d> {
    spec fn model(self) -> ExchangeModel {
        ExchangeModel {
            id: self.id@,
            data: self.data@,
            microseconds: self.microseconds,
            tries: self.tries as nat,
        }
    }

    spec fn fits(self) -> bool {
        self.data@.len() + ADDR_LEN < CAPACITY
    }
}

/// A pause before the next try, or before giving up.
pub struct Pause<'d> {
    exchange: Exchange<'d>,
    micros: u32,
}

/// A try whose packet is to be transmitted and answered. Its view is the exchange.
pub struct Listening<'d> {
    exchange: Exchange<'d>,
}

/// How an exchange goes on after a pause.
pub enum Resumed<'d> {
    /// The packet is filled: transmit it, and listen for the answer.
    Try(Listening<'d>),
    /// There were too many tries.
    GiveUp(RadioError),
}

/// How an exchange goes on after a try.
pub enum Replied<'d, 'p> {
    /// The answer came, with this payload behind the address.
    Payload(&'p [u8]),
    /// Try again after a pause.
    Retry(Pause<'d>),
}

impl<'d> View for Pause<'d> {
    type V = PauseModel;

    closed spec fn view(&self) -> PauseModel {
        PauseModel { exchange: self.exchange.model(), micros: self.micros }
    }
}

impl<'d> View for Listening<'d> {
    type V = ExchangeModel;

    closed spec fn view(&self) -> ExchangeModel {
        self.exchange.model()
    }
}

impl<'d> View for Resumed<'d> {
    type V = ResumedModel;

    open spec fn view(&self) -> ResumedModel {
        match *self {
            Resumed::Try(listening) => ResumedModel::Try(listening@),
            Resumed::GiveUp(error) => ResumedModel::GiveUp(error),
        }
    }
}

impl<'d, 'p> View for Replied<'d, 'p> {
    type V = RepliedModel;

    open spec fn view(&self) -> RepliedModel {
        match *self {
            Replied::Payload(rest) => RepliedModel::Payload(rest@),
            Replied::Retry(pause) => RepliedModel::Retry(pause@),
        }
    }
}

/// Begins to send a packet, containing the device address and the given data, and to wait for
/// a response.
///
/// `word0` and `word1` are what the address registers of the device hold. Each try waits for
/// the response for `microseconds` microseconds.
///
/// If we get a response containing the same device address, the exchange ends with a slice of
/// the remaining payload (i.e. not including the device address).
///
/// If we don't get a response, or we get a bad response (with the wrong address in it), we try
/// again.
///
/// If we try too many times, we give up.
pub fn send_recv<'d>(
    word0: u32,
    word1: u32,
    data_to_send: &'d [u8],
    microseconds: u32,
) -> (pause: Pause<'d>)
    requires
        data_to_send@.len() + ADDR_LEN < CAPACITY,
    ensures
        pause@ == (PauseModel {
            exchange: ExchangeModel {
                id: device_id(word0, word1),
                data: data_to_send@,
                microseconds,
                tries: RETRY_COUNT as nat,
            },
            micros: SHORT_DELAY,
        }),
        pause@.micros == 5_000,
        pause@.exchange.tries == 10,
        pause@.exchange.microseconds == microseconds,
        pause@.exchange.data == data_to_send@,
        pause@.exchange.id.len() == 6,
        ({
            let id = pause@.exchange.id;
            id[0] * 0x100_0000_0000 + id[1] * 0x1_0000_0000 + id[2] * 0x100_0000 + id[3] * 0x1_0000
                + id[4] * 0x100 + id[5] == (word0 * 0x1_0000_0000 + word1) / 0x1_0000
        }),
{
    let exchange = Exchange {
        id: get_id(word0, word1),
        data: data_to_send,
        microseconds,
        tries: RETRY_COUNT,
    };
    // Short delay before sending, so we don't get into a tight loop and steal all the bandwidth
    Pause { exchange, micros: SHORT_DELAY }
}

impl<'d> Pause<'d> {
    #[verifier::type_invariant]
    closed spec fn fits(self) -> bool {
        self.exchange.fits()
    }

    /// How many microseconds the pause takes.
    pub fn micros(&self) -> (micros: u32)
        ensures
            micros == self@.micros,
    {
        self.micros
    }

    /// Goes on after the pause. If there is a try left, `packet` then holds the request, with
    /// the bytes behind it left alone.
    pub fn resume(self, packet: &mut Packet) -> (next: Resumed<'d>)
        ensures
            next@ == after_pause(self@.exchange),
            match next {
                Resumed::Try(listening) => {
                    &&& self@.exchange.tries > 0
                    &&& listening@.id == self@.exchange.id
                    &&& listening@.data == self@.exchange.data
                    &&& listening@.microseconds == self@.exchange.microseconds
                    &&& listening@.tries == self@.exchange.tries
                },
                Resumed::GiveUp(error) => self@.exchange.tries == 0 && error
                    == RadioError::Timeout,
            },
            self@.exchange.tries > 0 ==> {
                let frame = crate::packet::packet_frame(*final(packet));
                let id = self@.exchange.id;
                let data = self@.exchange.data;
                &&& id.len() == 6
                &&& frame.len() == 128
                &&& frame[0] == 2 + 6 + data.len()
                &&& forall|i: int| 0 <= i < 6 ==> frame[1 + i] == #[trigger] id[i]
                &&& forall|i: int| 0 <= i < data.len() ==> frame[7 + i] == #[trigger] data[i]
            },
            self@.exchange.tries == 0 ==> *final(packet) == *old(packet),
            self@.exchange.tries > 0 ==> {
                &&& crate::packet::packet_sound(*final(packet))
                &&& crate::packet::packet_payload(*final(packet)) == self@.exchange.request()
                &&& forall|i: int|
                    1 + self@.exchange.request().len() <= i < FRAME_LEN
                        ==> #[trigger] crate::packet::packet_frame(*final(packet))[i]
                        == crate::packet::packet_frame(*old(packet))[i]
            },
    {
        proof {
            use_type_invariant(&self);
        }
        if self.exchange.tries == 0 {
            Resumed::GiveUp(RadioError::Timeout)
        } else {
            fill(packet, &self.exchange.id, self.exchange.data);
            proof {
                let frame = crate::packet::packet_frame(*packet);
                let payload = crate::packet::packet_payload(*packet);
                crate::packet::law_payload_follows_the_header(*packet);
                law_request_holds_address_and_data(self@.exchange);
                assert forall|i: int| 0 <= i < 6 implies frame[1 + i]
                    == #[trigger] self@.exchange.id[i] by {
                    assert(payload[i] == self@.exchange.request()[i]);
                }
                assert forall|i: int| 0 <= i < self@.exchange.data.len() implies frame[7 + i]
                    == #[trigger] self@.exchange.data[i] by {
                    assert(payload[6 + i] == self@.exchange.request()[6 + i]);
                }
            }
            Resumed::Try(Listening { exchange: self.exchange })
        }
    }
}

impl<'d> Listening<'d> {
    #[verifier::type_invariant]
    closed spec fn may_try(self) -> bool {
        &&& self.exchange.fits()
        &&& self.exchange.tries > 0
    }

    /// How many microseconds to listen for the answer.
    pub fn microseconds(&self) -> (microseconds: u32)
        ensures
            microseconds == self@.microseconds,
    {
        self.exchange.microseconds
    }

    /// Goes on after the try, on which the driver reported `result` and received `packet`.
    pub fn reply<'p>(self, packet: &'p Packet, result: Result<u16, RadioError>) -> (next: Replied<
        'd,
        'p,
    >)
        requires
            result is Ok ==> crate::packet::packet_sound(*packet),
        ensures
            next@ == after_try(
                self@,
                (Reception { result, payload: crate::packet::packet_payload(*packet) }),
            ),
            match next {
                Replied::Payload(rest) => {
                    let received = crate::packet::packet_payload(*packet);
                    &&& result is Ok
                    &&& received.len() >= 6
                    &&& forall|i: int| 0 <= i < 6 ==> received[i] == #[trigger] self@.id[i]
                    &&& rest@.len() == received.len() - 6
                    &&& forall|i: int|
                        0 <= i < rest@.len() ==> #[trigger] rest@[i] == received[6 + i]
                },
                Replied::Retry(pause) => {
                    let received = crate::packet::packet_payload(*packet);
                    &&& result is Err || received.len() < 6 || exists|i: int|
                        0 <= i < 6 && received[i] != #[trigger] self@.id[i]
                    &&& pause@.micros == 10_000
                    &&& pause@.exchange.tries == self@.tries - 1
                    &&& pause@.exchange.id == self@.id
                    &&& pause@.exchange.data == self@.data
                    &&& pause@.exchange.microseconds == self@.microseconds
                },
            },
    {
        match result {
            Ok(_crc) => self.accept(payload(packet)),
            Err(_) => Replied::Retry(self.retry()),
        }
    }

    /// Goes on after the try, on which the payload `received` came in intact.
    ///
    /// A payload that is too short to hold an address is a bad response like one with the
    /// wrong address.
    pub fn accept<'p>(self, received: &'p [u8]) -> (next: Replied<'d, 'p>)
        ensures
            next@ == if self@.is_addressee(received@) {
                RepliedModel::Payload(received@.skip(ADDR_LEN as int))
            } else {
                RepliedModel::Retry(self@.retried())
            },
            match next {
                Replied::Payload(rest) => {
                    &&& received@.len() >= 6
                    &&& forall|i: int| 0 <= i < 6 ==> received@[i] == #[trigger] self@.id[i]
                    &&& rest@.len() == received@.len() - 6
                    &&& forall|i: int|
                        0 <= i < rest@.len() ==> #[trigger] rest@[i] == received@[6 + i]
                },
                Replied::Retry(pause) => {
                    &&& received@.len() < 6 || exists|i: int|
                        0 <= i < 6 && received@[i] != #[trigger] self@.id[i]
                    &&& pause@.micros == 10_000
                    &&& pause@.exchange.tries == self@.tries - 1
                    &&& pause@.exchange.id == self@.id
                    &&& pause@.exchange.data == self@.data
                    &&& pause@.exchange.microseconds == self@.microseconds
                },
            },
    {
        proof {
            use_type_invariant(&self);
            law_answer_is_intact_and_addressed(
                self@,
                (Reception { result: Ok(0), payload: received@ }),
            );
        }
        if starts_with(received, &self.exchange.id) {
            Replied::Payload(vstd::slice::slice_subrange(received, ADDR_LEN, received.len()))
        } else {
            Replied::Retry(self.retry())
        }
    }

    /// Goes on after the try, which failed.
    pub fn retry(self) -> (pause: Pause<'d>)
        ensures
            pause@ == self@.retried(),
            pause@.micros == 10_000,
            pause@.exchange.tries == self@.tries - 1,
            pause@.exchange.id == self@.id,
            pause@.exchange.data == self@.data,
            pause@.exchange.microseconds == self@.microseconds,
    {
        proof {
            use_type_invariant(&self);
        }
        let exchange = Exchange { tries: self.exchange.tries - 1, ..self.exchange };
        Pause { exchange, micros: RETRY_DELAY }
    }
}

/// Whether `bytes` begins with `head`.
fn starts_with(bytes: &[u8], head: &[u8; ADDR_LEN]) -> (found: bool)
    ensures
        found == (bytes@.len() >= ADDR_LEN && bytes@.take(ADDR_LEN as int) == head@),
{
    if bytes.len() < ADDR_LEN {
        return false;
    }
    let mut i: usize = 0;
    while i < ADDR_LEN
        invariant
            i <= ADDR_LEN <= bytes@.len(),
            forall|j: int| 0 <= j < i ==> bytes@[j] == head@[j],
        decreases ADDR_LEN - i,
    {
        if bytes[i] != head[i] {
            assert(bytes@.take(ADDR_LEN as int)[i as int] != head@[i as int]);
            return false;
        }
        i = i + 1;
    }
    assert(bytes@.take(ADDR_LEN as int) =~= head@);
    true
}

/// A whole exchange.
pub struct Run {
    /// The payloads that were transmitted.
    pub sent: Seq<Seq<u8>>,
    /// How many microseconds each try listened for its answer.
    pub listened: Seq<u32>,
    /// The pauses, in microseconds: one before each try, and one before giving up.
    pub pauses: Seq<u32>,
    /// The payload of the answer, or the error.
    pub outcome: Result<Seq<u8>, RadioError>,
}

/// The exchange that is at `pause`, run to its end, where `receptions` come back on the tries
/// it makes.
pub open spec fn run(pause: PauseModel, receptions: Seq<Reception>) -> Run
    decreases pause.exchange.tries,
{
    match after_pause(pause.exchange) {
        ResumedModel::GiveUp(error) => Run {
            sent: Seq::empty(),
            listened: Seq::empty(),
            pauses: seq![pause.micros],
            outcome: Err(error),
        },
        ResumedModel::Try(trying) => match after_try(trying, receptions[0]) {
            RepliedModel::Payload(payload) => Run {
                sent: seq![trying.request()],
                listened: seq![trying.microseconds],
                pauses: seq![pause.micros],
                outcome: Ok(payload),
            },
            RepliedModel::Retry(next) => {
                let rest = run(next, receptions.skip(1));
                Run {
                    sent: seq![trying.request()] + rest.sent,
                    listened: seq![trying.microseconds] + rest.listened,
                    pauses: seq![pause.micros] + rest.pauses,
                    outcome: rest.outcome,
                }
            },
        },
    }
}

/// The first answer ends the exchange: if `receptions[k]` is the first of the receptions that
/// answers it, and there are tries enough to get to it, then the outcome is what that answer
/// carries behind the address. The request was sent up to that try and not again, with
/// a pause before each, and each try listened for the time that the exchange was given.
pub proof fn law_first_answer_ends_exchange(
    pause: PauseModel,
    receptions: Seq<Reception>,
    k: nat,
)
    requires
        k < pause.exchange.tries,
        k < receptions.len(),
        pause.exchange.answered_by(receptions[k as int]),
        forall|j: int| 0 <= j < k ==> !pause.exchange.answered_by(#[trigger] receptions[j]),
    ensures
        run(pause, receptions).outcome == Ok::<Seq<u8>, RadioError>(
            receptions[k as int].payload.skip(ADDR_LEN as int),
        ),
        run(pause, receptions).sent == Seq::new(k + 1, |i: int| pause.exchange.request()),
        run(pause, receptions).listened == Seq::new(k + 1, |i: int| pause.exchange.microseconds),
        run(pause, receptions).pauses == Seq::new(
            k + 1,
            |i: int|
                if i == 0 {
                    pause.micros
                } else {
                    RETRY_DELAY
                },
        ),
    decreases k,
{
    let model = pause.exchange;
    let whole = run(pause, receptions);
    if k > 0 {
        let later = receptions.skip(1);
        assert(!model.answered_by(receptions[0]));
        assert forall|j: int| 0 <= j < k - 1 implies !model.tried().answered_by(
            #[trigger] later[j],
        ) by {
            assert(!model.answered_by(receptions[j + 1]));
        }
        law_first_answer_ends_exchange(model.retried(), later, (k - 1) as nat);
    }
    assert(whole.sent =~= Seq::new(k + 1, |i: int| model.request()));
    assert(whole.listened =~= Seq::new(k + 1, |i: int| model.microseconds));
    assert(whole.pauses =~= Seq::new(
        k + 1,
        |i: int|
            if i == 0 {
                pause.micros
            } else {
                RETRY_DELAY
            },
    ));
}

/// An exchange that is not answered on any of its tries is given up with a timeout, whatever
/// else came in. The request was sent on each try, with a pause before each and one more
/// at the end, and each try listened for the time that the exchange was given.
pub proof fn law_unanswered_exchange_times_out(
    pause: PauseModel,
    receptions: Seq<Reception>,
)
    requires
        pause.exchange.tries <= receptions.len(),
        forall|j: int|
            0 <= j < pause.exchange.tries ==> !pause.exchange.answered_by(#[trigger] receptions[j]),
    ensures
        run(pause, receptions).outcome == Err::<Seq<u8>, RadioError>(RadioError::Timeout),
        run(pause, receptions).sent == Seq::new(pause.exchange.tries, |i: int| pause.exchange.request()),
        run(pause, receptions).listened == Seq::new(pause.exchange.tries, |i: int| pause.exchange.microseconds),
        run(pause, receptions).pauses == Seq::new(
            pause.exchange.tries + 1,
            |i: int|
                if i == 0 {
                    pause.micros
                } else {
                    RETRY_DELAY
                },
        ),
    decreases pause.exchange.tries,
{
    let model = pause.exchange;
    let whole = run(pause, receptions);
    if model.tries > 0 {
        let later = receptions.skip(1);
        assert(!model.answered_by(receptions[0]));
        assert forall|j: int| 0 <= j < model.tries - 1 implies !model.tried().answered_by(
            #[trigger] later[j],
        ) by {
            assert(!model.answered_by(receptions[j + 1]));
        }
        law_unanswered_exchange_times_out(model.retried(), later);
    }
    assert(whole.sent =~= Seq::new(model.tries, |i: int| model.request()));
    assert(whole.listened =~= Seq::new(model.tries, |i: int| model.microseconds));
    assert(whole.pauses =~= Seq::new(
        model.tries + 1,
        |i: int|
            if i == 0 {
                pause.micros
            } else {
                RETRY_DELAY
            },
    ));
}

/// A request is the address followed by all of the data, byte for byte: it is as long as the two
/// together, and no byte of either is left out or changed.
pub proof fn law_request_holds_address_and_data(model: ExchangeModel)
    ensures
        model.request().len() == model.id.len() + model.data.len(),
        forall|i: int| 0 <= i < model.id.len() ==> #[trigger] model.request()[i] == model.id[i],
        forall|i: int|
            0 <= i < model.data.len() ==> model.request()[model.id.len() + i]
                == #[trigger] model.data[i],
{
}

/// A try that failed uses up that try and changes nothing else: the next one sends the same data
/// under the same address and listens just as long, after a pause of ten milliseconds.
pub proof fn law_failed_try_keeps_the_exchange(model: ExchangeModel)
    requires
        model.tries > 0,
    ensures
        model.tried().tries + 1 == model.tries,
        model.tried().id == model.id,
        model.tried().data == model.data,
        model.tried().microseconds == model.microseconds,
        model.retried().exchange.tries + 1 == model.tries,
        model.retried().exchange.id == model.id,
        model.retried().exchange.data == model.data,
        model.retried().exchange.microseconds == model.microseconds,
        model.retried().micros == 10_000,
{
}

/// After a pause there is another try of the unchanged exchange as long as one is left, and only
/// then is it given up.
pub proof fn law_pause_leads_to_a_try(model: ExchangeModel)
    ensures
        match after_pause(model) {
            ResumedModel::Try(next) => {
                &&& model.tries > 0
                &&& next.id == model.id
                &&& next.data == model.data
                &&& next.microseconds == model.microseconds
                &&& next.tries == model.tries
            },
            ResumedModel::GiveUp(error) => model.tries == 0 && error == RadioError::Timeout,
        },
{
}

/// A try is answered exactly if something came in intact whose first six bytes are those of the
/// address, and then every byte behind these is handed out. Anything else leads to a retry.
pub proof fn law_answer_is_intact_and_addressed(model: ExchangeModel, reception: Reception)
    requires
        model.id.len() == 6,
        model.tries > 0,
    ensures
        match after_try(model, reception) {
            RepliedModel::Payload(rest) => {
                &&& reception.result is Ok
                &&& reception.payload.len() >= 6
                &&& forall|i: int| 0 <= i < 6 ==> reception.payload[i] == #[trigger] model.id[i]
                &&& rest.len() + 6 == reception.payload.len()
                &&& forall|i: int|
                    0 <= i < rest.len() ==> #[trigger] rest[i] == reception.payload[6 + i]
            },
            RepliedModel::Retry(pause) => {
                &&& reception.result is Err || reception.payload.len() < 6 || exists|i: int|
                    0 <= i < 6 && reception.payload[i] != #[trigger] model.id[i]
                &&& pause.micros == 10_000
                &&& pause.exchange.tries + 1 == model.tries
                &&& pause.exchange.id == model.id
                &&& pause.exchange.data == model.data
                &&& pause.exchange.microseconds == model.microseconds
            },
        },
{
    let head = reception.payload.take(ADDR_LEN as int);
    if reception.payload.len() >= 6 {
        assert forall|i: int| 0 <= i < 6 implies reception.payload[i] == #[trigger] head[i] by {}
        if forall|i: int| 0 <= i < 6 ==> reception.payload[i] == #[trigger] model.id[i] {
            assert(head =~= model.id);
        }
    }
}

/// A response that puts `answer` behind the address of this device is taken, and gives back
/// `answer`.
pub proof fn law_addressed_response_is_taken(model: ExchangeModel, crc: u16, answer: Seq<u8>)
    requires
        model.id.len() == ADDR_LEN,
    ensures
        after_try(model, (Reception { result: Ok(crc), payload: model.id + answer }))
            == RepliedModel::Payload(answer),
{
    assert((model.id + answer).take(ADDR_LEN as int) =~= model.id);
    assert((model.id + answer).skip(ADDR_LEN as int) =~= answer);
}

/// A response that begins with the address of another device is not taken.
pub proof fn law_foreign_response_is_refused(
    model: ExchangeModel,
    other: Seq<u8>,
    crc: u16,
    answer: Seq<u8>,
)
    requires
        other.len() == ADDR_LEN,
        other != model.id,
    ensures
        after_try(model, (Reception { result: Ok(crc), payload: other + answer }))
            == RepliedModel::Retry(model.retried()),
{
    assert((other + answer).take(ADDR_LEN as int) =~= other);
}

/// A word is made of its bytes.
proof fn lemma_word_bytes(word: u32)
    ensures
        word == (word / 0x100_0000) * 0x100_0000 + (word / 0x1_0000 % 0x100) * 0x1_0000 + (word
            / 0x100 % 0x100) * 0x100 + word % 0x100,
        word / 0x1_0000 == (word / 0x100_0000) * 0x100 + word / 0x1_0000 % 0x100,
        word / 0x100_0000 < 0x100,
{
    let upper = word / 0x100;
    let half = word / 0x1_0000;
    assert(half == upper / 0x100);
    assert(word / 0x100_0000 == half / 0x100);
    assert(word == upper * 0x100 + word % 0x100);
    assert(upper == half * 0x100 + upper % 0x100);
    assert(half == half / 0x100 * 0x100 + half % 0x100);
}

/// The address, read as a number with its most significant byte first, is the upper 48 bits of the
/// 64 that the two registers hold.
pub proof fn law_device_id_is_the_upper_part(word0: u32, word1: u32)
    ensures
        device_id(word0, word1).len() == 6,
        ({
            let id = device_id(word0, word1);
            id[0] * 0x100_0000_0000 + id[1] * 0x1_0000_0000 + id[2] * 0x100_0000 + id[3] * 0x1_0000
                + id[4] * 0x100 + id[5] == (word0 * 0x1_0000_0000 + word1) / 0x1_0000
        }),
{
    lemma_word_bytes(word0);
    lemma_word_bytes(word1);
    assert((word0 * 0x1_0000_0000 + word1) / 0x1_0000 == word0 * 0x1_0000 + word1 / 0x1_0000);
}

/// The address tells apart all devices whose registers differ in the bytes it is made of.
pub proof fn law_device_id_is_injective(a0: u32, a1: u32, b0: u32, b1: u32)
    requires
        device_id(a0, a1) == device_id(b0, b1),
    ensures
        a0 == b0,
        a1 / 0x1_0000 == b1 / 0x1_0000,
{
    let a = device_id(a0, a1);
    let b = device_id(b0, b1);
    assert(a0 == b0) by {
        lemma_word_bytes(a0);
        lemma_word_bytes(b0);
        assert(a[0] == b[0] && a[1] == b[1] && a[2] == b[2] && a[3] == b[3]);
    }
    assert(a1 / 0x1_0000 == b1 / 0x1_0000) by {
        lemma_word_bytes(a1);
        lemma_word_bytes(b1);
        assert(a[4] == b[4] && a[5] == b[5]);
    }
}

} // verus!
