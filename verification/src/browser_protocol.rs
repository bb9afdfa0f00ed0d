//! Names of the commands exchanged between the browser facade, its runtime
//! and the main-thread RTC registry.

use vstd::prelude::*;
use crate::text::str_eq;

verus! {

pub const WORKER_SPAWN_COMMAND: &'static str = "worker.spawn";
pub const WORKER_DIAL_COMMAND: &'static str = "worker.dial";
pub const WORKER_ACCEPT_OPEN_COMMAND: &'static str = "worker.accept-open";
pub const WORKER_ACCEPT_NEXT_COMMAND: &'static str = "worker.accept-next";
pub const WORKER_ACCEPT_CLOSE_COMMAND: &'static str = "worker.accept-close";
pub const WORKER_BOOTSTRAP_SIGNAL_COMMAND: &'static str = "worker.bootstrap-signal";
pub const WORKER_ATTACH_DATA_CHANNEL_COMMAND: &'static str = "worker.attach-data-channel";
pub const WORKER_MAIN_RTC_RESULT_COMMAND: &'static str = "worker.main-rtc-result";
pub const WORKER_CONNECTION_CLOSE_COMMAND: &'static str = "worker.connection-close";
pub const WORKER_NODE_CLOSE_COMMAND: &'static str = "worker.node-close";

pub const BENCHMARK_ECHO_OPEN_COMMAND: &'static str = "benchmark.echo-open";
pub const BENCHMARK_LATENCY_COMMAND: &'static str = "benchmark.latency";
pub const BENCHMARK_THROUGHPUT_COMMAND: &'static str = "benchmark.throughput";

pub const MAIN_RTC_CREATE_PEER_CONNECTION_COMMAND: &'static str = "main.create-peer-connection";
pub const MAIN_RTC_CREATE_DATA_CHANNEL_COMMAND: &'static str = "main.create-data-channel";
pub const MAIN_RTC_TAKE_DATA_CHANNEL_COMMAND: &'static str = "main.take-data-channel";
pub const MAIN_RTC_CREATE_OFFER_COMMAND: &'static str = "main.create-offer";
pub const MAIN_RTC_ACCEPT_OFFER_COMMAND: &'static str = "main.accept-offer";
pub const MAIN_RTC_CREATE_ANSWER_COMMAND: &'static str = "main.create-answer";
pub const MAIN_RTC_ACCEPT_ANSWER_COMMAND: &'static str = "main.accept-answer";
pub const MAIN_RTC_NEXT_LOCAL_ICE_COMMAND: &'static str = "main.next-local-ice";
pub const MAIN_RTC_ADD_REMOTE_ICE_COMMAND: &'static str = "main.add-remote-ice";
pub const MAIN_RTC_CLOSE_PEER_CONNECTION_COMMAND: &'static str = "main.close-peer-connection";

pub const STREAM_OPEN_BI_COMMAND: &'static str = "stream.open-bi";
pub const STREAM_ACCEPT_BI_COMMAND: &'static str = "stream.accept-bi";
pub const STREAM_SEND_CHUNK_COMMAND: &'static str = "stream.send-chunk";
pub const STREAM_RECEIVE_CHUNK_COMMAND: &'static str = "stream.receive-chunk";
pub const STREAM_CLOSE_SEND_COMMAND: &'static str = "stream.close-send";
pub const STREAM_RESET_COMMAND: &'static str = "stream.reset";
pub const STREAM_CANCEL_PENDING_COMMAND: &'static str = "stream.cancel-pending";

/// The commands that the main-thread RTC registry serves.
#[derive(Debug, Clone, Copy, PartialEq, Eq, Structural)]
pub enum MainRtcCommandName {
    CreatePeerConnection,
    CreateDataChannel,
    TakeDataChannel,
    CreateOffer,
    AcceptOffer,
    CreateAnswer,
    AcceptAnswer,
    NextLocalIce,
    AddRemoteIce,
    ClosePeerConnection,
}

/// The canonical name of each main-thread RTC command.
pub open spec fn main_rtc_command_name(c: MainRtcCommandName) -> Seq<char> {
    match c {
        MainRtcCommandName::CreatePeerConnection => "main.create-peer-connection"@,
        MainRtcCommandName::CreateDataChannel => "main.create-data-channel"@,
        MainRtcCommandName::TakeDataChannel => "main.take-data-channel"@,
        MainRtcCommandName::CreateOffer => "main.create-offer"@,
        MainRtcCommandName::AcceptOffer => "main.accept-offer"@,
        MainRtcCommandName::CreateAnswer => "main.create-answer"@,
        MainRtcCommandName::AcceptAnswer => "main.accept-answer"@,
        MainRtcCommandName::NextLocalIce => "main.next-local-ice"@,
        MainRtcCommandName::AddRemoteIce => "main.add-remote-ice"@,
        MainRtcCommandName::ClosePeerConnection => "main.close-peer-connection"@,
    }
}

/// Length and sixth character of each name: together they tell the names
/// apart.
spec fn name_shape(c: MainRtcCommandName) -> (int, char) {
    match c {
        MainRtcCommandName::CreatePeerConnection => (27, 'c'),
        MainRtcCommandName::CreateDataChannel => (24, 'c'),
        MainRtcCommandName::TakeDataChannel => (22, 't'),
        MainRtcCommandName::CreateOffer => (17, 'c'),
        MainRtcCommandName::AcceptOffer => (17, 'a'),
        MainRtcCommandName::CreateAnswer => (18, 'c'),
        MainRtcCommandName::AcceptAnswer => (18, 'a'),
        MainRtcCommandName::NextLocalIce => (19, 'n'),
        MainRtcCommandName::AddRemoteIce => (19, 'a'),
        MainRtcCommandName::ClosePeerConnection => (26, 'c'),
    }
}

proof fn lemma_name_shape(c: MainRtcCommandName)
    ensures
        main_rtc_command_name(c).len() == name_shape(c).0,
        main_rtc_command_name(c)[5] == name_shape(c).1,
        main_rtc_command_name(c).subrange(0, 5) == "main."@,
{
    reveal_strlit("main.");
    match c {
        MainRtcCommandName::CreatePeerConnection => {
            reveal_strlit("main.create-peer-connection");
            assert(main_rtc_command_name(c).subrange(0, 5) =~= "main."@);
        },
        MainRtcCommandName::CreateDataChannel => {
            reveal_strlit("main.create-data-channel");
            assert(main_rtc_command_name(c).subrange(0, 5) =~= "main."@);
        },
        MainRtcCommandName::TakeDataChannel => {
            reveal_strlit("main.take-data-channel");
            assert(main_rtc_command_name(c).subrange(0, 5) =~= "main."@);
        },
        MainRtcCommandName::CreateOffer => {
            reveal_strlit("main.create-offer");
            assert(main_rtc_command_name(c).subrange(0, 5) =~= "main."@);
        },
        MainRtcCommandName::AcceptOffer => {
            reveal_strlit("main.accept-offer");
            assert(main_rtc_command_name(c).subrange(0, 5) =~= "main."@);
        },
        MainRtcCommandName::CreateAnswer => {
            reveal_strlit("main.create-answer");
            assert(main_rtc_command_name(c).subrange(0, 5) =~= "main."@);
        },
        MainRtcCommandName::AcceptAnswer => {
            reveal_strlit("main.accept-answer");
            assert(main_rtc_command_name(c).subrange(0, 5) =~= "main."@);
        },
        MainRtcCommandName::NextLocalIce => {
            reveal_strlit("main.next-local-ice");
            assert(main_rtc_command_name(c).subrange(0, 5) =~= "main."@);
        },
        MainRtcCommandName::AddRemoteIce => {
            reveal_strlit("main.add-remote-ice");
            assert(main_rtc_command_name(c).subrange(0, 5) =~= "main."@);
        },
        MainRtcCommandName::ClosePeerConnection => {
            reveal_strlit("main.close-peer-connection");
            assert(main_rtc_command_name(c).subrange(0, 5) =~= "main."@);
        },
    }
}

/// Different main-thread RTC commands have different names, and each name
/// starts with `main.`.
pub proof fn law_main_rtc_names_distinct(a: MainRtcCommandName, b: MainRtcCommandName)
    ensures
        a != b ==> main_rtc_command_name(a) != main_rtc_command_name(b),
        main_rtc_command_name(a).len() >= 5,
        main_rtc_command_name(a).subrange(0, 5) == "main."@,
{
    lemma_name_shape(a);
    lemma_name_shape(b);
}

impl MainRtcCommandName {
    pub fn as_str(self) -> (r: &'static str)
        ensures
            r@ == main_rtc_command_name(self),
    {
        match self {
            MainRtcCommandName::CreatePeerConnection => "main.create-peer-connection",
            MainRtcCommandName::CreateDataChannel => "main.create-data-channel",
            MainRtcCommandName::TakeDataChannel => "main.take-data-channel",
            MainRtcCommandName::CreateOffer => "main.create-offer",
            MainRtcCommandName::AcceptOffer => "main.accept-offer",
            MainRtcCommandName::CreateAnswer => "main.create-answer",
            MainRtcCommandName::AcceptAnswer => "main.accept-answer",
            MainRtcCommandName::NextLocalIce => "main.next-local-ice",
            MainRtcCommandName::AddRemoteIce => "main.add-remote-ice",
            MainRtcCommandName::ClosePeerConnection => "main.close-peer-connection",
        }
    }

    /// The command with this canonical name, if any.
    pub fn from_name(name: &str) -> (r: Option<Self>)
        ensures
            match r {
                Some(c) => main_rtc_command_name(c) == name@,
                None => forall|c: MainRtcCommandName| main_rtc_command_name(c) != name@,
            },
            forall|c: MainRtcCommandName| main_rtc_command_name(c) == name@ ==> r == Some(c),
    {
        let r = find_main_rtc_command(name);
        proof {
            if let Some(x) = r {
                assert forall|c: MainRtcCommandName| main_rtc_command_name(c) == name@ implies r
                    == Some(c) by {
                    law_main_rtc_names_distinct(c, x);
                }
            }
        }
        r
    }
}

fn find_main_rtc_command(name: &str) -> (r: Option<MainRtcCommandName>)
    ensures
        match r {
            Some(c) => main_rtc_command_name(c) == name@,
            None => forall|c: MainRtcCommandName| main_rtc_command_name(c) != name@,
        },
{
    if str_eq(name, "main.create-peer-connection") {
        Some(MainRtcCommandName::CreatePeerConnection)
    } else if str_eq(name, "main.create-data-channel") {
        Some(MainRtcCommandName::CreateDataChannel)
    } else if str_eq(name, "main.take-data-channel") {
        Some(MainRtcCommandName::TakeDataChannel)
    } else if str_eq(name, "main.create-offer") {
        Some(MainRtcCommandName::CreateOffer)
    } else if str_eq(name, "main.accept-offer") {
        Some(MainRtcCommandName::AcceptOffer)
    } else if str_eq(name, "main.create-answer") {
        Some(MainRtcCommandName::CreateAnswer)
    } else if str_eq(name, "main.accept-answer") {
        Some(MainRtcCommandName::AcceptAnswer)
    } else if str_eq(name, "main.next-local-ice") {
        Some(MainRtcCommandName::NextLocalIce)
    } else if str_eq(name, "main.add-remote-ice") {
        Some(MainRtcCommandName::AddRemoteIce)
    } else if str_eq(name, "main.close-peer-connection") {
        Some(MainRtcCommandName::ClosePeerConnection)
    } else {
        None
    }
}

/// The exported command constants are the canonical names.
pub proof fn law_main_rtc_constants_are_canonical()
    ensures
        MAIN_RTC_CREATE_PEER_CONNECTION_COMMAND@ == main_rtc_command_name(MainRtcCommandName::CreatePeerConnection),
        MAIN_RTC_CREATE_DATA_CHANNEL_COMMAND@ == main_rtc_command_name(MainRtcCommandName::CreateDataChannel),
        MAIN_RTC_TAKE_DATA_CHANNEL_COMMAND@ == main_rtc_command_name(MainRtcCommandName::TakeDataChannel),
        MAIN_RTC_CREATE_OFFER_COMMAND@ == main_rtc_command_name(MainRtcCommandName::CreateOffer),
        MAIN_RTC_ACCEPT_OFFER_COMMAND@ == main_rtc_command_name(MainRtcCommandName::AcceptOffer),
        MAIN_RTC_CREATE_ANSWER_COMMAND@ == main_rtc_command_name(MainRtcCommandName::CreateAnswer),
        MAIN_RTC_ACCEPT_ANSWER_COMMAND@ == main_rtc_command_name(MainRtcCommandName::AcceptAnswer),
        MAIN_RTC_NEXT_LOCAL_ICE_COMMAND@ == main_rtc_command_name(MainRtcCommandName::NextLocalIce),
        MAIN_RTC_ADD_REMOTE_ICE_COMMAND@ == main_rtc_command_name(MainRtcCommandName::AddRemoteIce),
        MAIN_RTC_CLOSE_PEER_CONNECTION_COMMAND@ == main_rtc_command_name(MainRtcCommandName::ClosePeerConnection),
{
}

} // verus!
