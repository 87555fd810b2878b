//! The per-account state machine: two tick-driven timers, the routing of
//! inbound events, and what to do with a status report or an inventory.
use vstd::prelude::*;

use crate::decision::{decide, opt_text, command_for, rule_for, Command, LocationStatus, Rule};
use crate::inventory::{find_by_label_substring, slot_matches, InventorySlot};
use crate::text::{contains_seq, contains_text, starts_with_seq, starts_with_text};

verus! {

/// Pre-increment value of the spawn timer at which a status check is sent.
pub const STATUS_CHECK_AT: i32 = 200;

/// Pre-increment value of the screen timer at which the inventory is scanned.
pub const INVENTORY_SCAN_AT: i32 = 100;

/// Spawn-timer value set after an action, so that the next status check
/// waits for the move to finish.
pub const COOLDOWN_START: i32 = -300;

/// Label text of the inventory item that opens the visit.
pub const VISIT_LABEL: &'static str = "Visit player island";

/// The kinds of packet the agent tells apart. `OpenScreen` arms the screen
/// timer; the others are traffic it knows of and ignores, and `Other` stands
/// for everything else.
#[derive(Clone, Copy, Debug, PartialEq, Eq, Structural)]
pub enum PacketKind {
    OpenScreen,
    LevelParticles,
    Ping,
    BossEvent,
    EntityPositionSync,
    MoveEntityRot,
    MoveEntityPos,
    MoveEntityPosRot,
    RotateHead,
    ContainerSetSlot,
    SetObjective,
    SetEntityData,
    SetEntityMotion,
    PlayerInfoUpdate,
    PlayerInfoRemove,
    SetEquipment,
    Animate,
    AddEntity,
    LevelChunkWithLight,
    KeepAlive,
    SetPlayerTeam,
    RemoveEntities,
    UpdateAttributes,
    Other,
}

impl PacketKind {
    /// Known traffic that is deliberately ignored: every kind but
    /// `OpenScreen` and `Other`.
    pub fn is_known_ignored(self) -> (r: bool)
        ensures
            r == (self != PacketKind::OpenScreen && self != PacketKind::Other),
    {
        match self {
            PacketKind::OpenScreen => false,
            PacketKind::Other => false,
            _ => true,
        }
    }
}

/// One inbound event for an account.
#[derive(Clone, Debug, PartialEq, Eq)]
pub enum Event {
    Init,
    Spawn,
    Chat(String),
    Tick,
    Packet(PacketKind),
    Disconnect,
}

/// How a chat line is to be treated.
#[derive(Clone, Copy, Debug, PartialEq, Eq, Structural)]
pub enum ChatLine {
    /// Known noise, dropped at once.
    Noise,
    /// An ordinary line, nothing to do.
    Plain,
    /// A line that looks like a status report and should be parsed.
    Status,
}

/// Chat lines holding one of these are noise.
pub open spec fn is_noise(text: Seq<char>) -> bool {
    contains_seq(text, "Mana"@) || contains_seq(text, "parkour"@)
}

/// The treatment of a chat line.
pub open spec fn chat_line_kind(text: Seq<char>) -> ChatLine {
    if is_noise(text) {
        ChatLine::Noise
    } else if starts_with_seq(text, "{"@) {
        ChatLine::Status
    } else {
        ChatLine::Plain
    }
}

/// Sorts a chat line: noise is dropped, a line opening with a brace is a
/// status report, anything else is plain chat.
pub fn classify_chat(text: &str) -> (r: ChatLine)
    ensures
        r == chat_line_kind(text@),
{
    if contains_text(text, "Mana") || contains_text(text, "parkour") {
        ChatLine::Noise
    } else if starts_with_text(text, "{") {
        ChatLine::Status
    } else {
        ChatLine::Plain
    }
}

/// What the caller has to do after an event.
#[derive(Clone, Copy, Debug, PartialEq, Eq, Structural)]
pub struct Reaction {
    /// Send the one-time client settings (left main hand).
    pub configure_client: bool,
    /// Parse the chat line as a status report and pass it to `apply_status`.
    pub parse_status: bool,
    /// Send the status-check command.
    pub status_check: bool,
    /// Read the inventory and pass it to `apply_inventory`.
    pub scan_inventory: bool,
}

/// The outcome of an inventory scan.
#[derive(Clone, Copy, Debug, PartialEq, Eq, Structural)]
pub enum ScanOutcome {
    /// Click this slot.
    Click(usize),
    /// No inventory was open.
    NoInventory,
    /// No slot carries the visit label.
    LabelNotFound,
}

/// The timer after one tick.
pub open spec fn advanced(t: Option<i32>) -> Option<i32> {
    match t {
        Some(n) => Some((n + 1) as i32),
        None => None,
    }
}

/// The timer can take one more tick without leaving `i32`.
pub open spec fn can_advance(t: Option<i32>) -> bool {
    match t {
        Some(n) => n < i32::MAX,
        None => true,
    }
}

/// The mutable record of one account.
#[derive(Clone, Debug, PartialEq, Eq)]
pub struct AccountState {
    /// Ticks since the last spawn; negative while cooling down after an
    /// action. `None` until the first spawn.
    pub world_spawn_timer: Option<i32>,
    /// Ticks since a screen opened; `None` when no screen is pending.
    pub screen_open_timer: Option<i32>,
    /// The player whose island this account visits; `None` for the account
    /// that owns the destination.
    pub target: Option<String>,
}

impl AccountState {
    /// A fresh account with both timers inactive.
    pub fn new(target: Option<String>) -> (r: AccountState)
        ensures
            r.world_spawn_timer.is_none(),
            r.screen_open_timer.is_none(),
            r.target == target,
    {
        AccountState { world_spawn_timer: None, screen_open_timer: None, target }
    }

    /// Both timers can take one more tick.
    pub open spec fn can_tick(&self) -> bool {
        can_advance(self.world_spawn_timer) && can_advance(self.screen_open_timer)
    }

    /// Whether both timers can take one more tick.
    pub fn tick_fits(&self) -> (r: bool)
        ensures
            r == self.can_tick(),
    {
        let w = match self.world_spawn_timer {
            Some(n) => n < i32::MAX,
            None => true,
        };
        let s = match self.screen_open_timer {
            Some(n) => n < i32::MAX,
            None => true,
        };
        w && s
    }

    /// The state after a spawn: spawn timer at zero, no pending screen.
    pub open spec fn spawned(self) -> AccountState {
        AccountState { world_spawn_timer: Some(0i32), screen_open_timer: None, ..self }
    }

    /// A spawn restarts the spawn timer and drops any pending screen.
    pub fn on_spawn(&mut self)
        ensures
            *final(self) == old(self).spawned(),
    {
        self.world_spawn_timer = Some(0);
        self.screen_open_timer = None;
    }

    /// A packet arms the screen timer when it opens a screen; every other
    /// kind leaves the state alone.
    pub fn on_packet(&mut self, kind: PacketKind)
        ensures
            final(self).screen_open_timer == (if kind == PacketKind::OpenScreen {
                Some(0i32)
            } else {
                old(self).screen_open_timer
            }),
            final(self).world_spawn_timer == old(self).world_spawn_timer,
            final(self).target == old(self).target,
    {
        if kind == PacketKind::OpenScreen {
            self.screen_open_timer = Some(0);
        }
    }

    /// Advances each active timer by one. A status check is due when the
    /// spawn timer stood at exactly `STATUS_CHECK_AT`, an inventory scan when
    /// the screen timer stood at exactly `INVENTORY_SCAN_AT`; the two are
    /// independent.
    pub fn on_tick(&mut self) -> (r: Reaction)
        requires
            old(self).can_tick(),
        ensures
            final(self).world_spawn_timer == advanced(old(self).world_spawn_timer),
            final(self).screen_open_timer == advanced(old(self).screen_open_timer),
            final(self).target == old(self).target,
            r.status_check == (old(self).world_spawn_timer == Some(STATUS_CHECK_AT)),
            r.scan_inventory == (old(self).screen_open_timer == Some(INVENTORY_SCAN_AT)),
            !r.configure_client,
            !r.parse_status,
    {
        let mut status_check = false;
        let mut scan_inventory = false;
        if let Some(n) = self.world_spawn_timer {
            self.world_spawn_timer = Some(n + 1);
            status_check = n == STATUS_CHECK_AT;
        }
        if let Some(n) = self.screen_open_timer {
            self.screen_open_timer = Some(n + 1);
            scan_inventory = n == INVENTORY_SCAN_AT;
        }
        Reaction { configure_client: false, parse_status: false, status_check, scan_inventory }
    }

    /// Routes one event. The state changes only on `Spawn`, `Tick` and a
    /// screen-opening `Packet`; the reaction tells the caller what else to do.
    pub fn handle_event(&mut self, event: &Event) -> (r: Reaction)
        requires
            event is Tick ==> old(self).can_tick(),
        ensures
            match event {
                Event::Init => {
                    &&& *final(self) == *old(self)
                    &&& r == (Reaction {
                        configure_client: true,
                        parse_status: false,
                        status_check: false,
                        scan_inventory: false,
                    })
                },
                Event::Spawn => {
                    &&& *final(self) == old(self).spawned()
                    &&& r == (Reaction {
                        configure_client: false,
                        parse_status: false,
                        status_check: false,
                        scan_inventory: false,
                    })
                },
                Event::Chat(text) => {
                    &&& *final(self) == *old(self)
                    &&& r == (Reaction {
                        configure_client: false,
                        parse_status: chat_line_kind(text@) == ChatLine::Status,
                        status_check: false,
                        scan_inventory: false,
                    })
                },
                Event::Tick => {
                    &&& final(self).world_spawn_timer == advanced(old(self).world_spawn_timer)
                    &&& final(self).screen_open_timer == advanced(old(self).screen_open_timer)
                    &&& final(self).target == old(self).target
                    &&& r == (Reaction {
                        configure_client: false,
                        parse_status: false,
                        status_check: old(self).world_spawn_timer == Some(STATUS_CHECK_AT),
                        scan_inventory: old(self).screen_open_timer == Some(INVENTORY_SCAN_AT),
                    })
                },
                Event::Packet(kind) => {
                    &&& final(self).screen_open_timer == (if *kind == PacketKind::OpenScreen {
                        Some(0i32)
                    } else {
                        old(self).screen_open_timer
                    })
                    &&& final(self).world_spawn_timer == old(self).world_spawn_timer
                    &&& final(self).target == old(self).target
                    &&& r == (Reaction {
                        configure_client: false,
                        parse_status: false,
                        status_check: false,
                        scan_inventory: false,
                    })
                },
                Event::Disconnect => {
                    &&& *final(self) == *old(self)
                    &&& r == (Reaction {
                        configure_client: false,
                        parse_status: false,
                        status_check: false,
                        scan_inventory: false,
                    })
                },
            },
    {
        let none = Reaction {
            configure_client: false,
            parse_status: false,
            status_check: false,
            scan_inventory: false,
        };
        match event {
            Event::Init => Reaction { configure_client: true, ..none },
            Event::Spawn => {
                self.on_spawn();
                none
            },
            Event::Chat(text) => {
                let kind = classify_chat(text.as_str());
                Reaction { parse_status: kind == ChatLine::Status, ..none }
            },
            Event::Tick => self.on_tick(),
            Event::Packet(kind) => {
                self.on_packet(*kind);
                none
            },
            Event::Disconnect => none,
        }
    }

    /// Acts on a parsed status report: picks the command by the ordered rules
    /// and, for every rule but a visit, starts the status-check cooldown.
    pub fn apply_status(&mut self, status: &LocationStatus) -> (r: Command)
        ensures
            command_for(
                rule_for(opt_text(status.server), opt_text(status.gametype), old(self).target.is_some()),
                opt_text(old(self).target),
                r,
            ),
            final(self).world_spawn_timer == (if rule_for(
                opt_text(status.server),
                opt_text(status.gametype),
                old(self).target.is_some(),
            ).starts_cooldown_spec() {
                Some(COOLDOWN_START)
            } else {
                old(self).world_spawn_timer
            }),
            final(self).screen_open_timer == old(self).screen_open_timer,
            final(self).target == old(self).target,
    {
        let d = decide(status, &self.target);
        if d.rule.starts_cooldown() {
            self.world_spawn_timer = Some(COOLDOWN_START);
        }
        d.command
    }

    /// Acts on the inventory read after a scan was due: finds the first slot
    /// whose label contains `VISIT_LABEL` and, when there is one, starts the
    /// status-check cooldown and asks for a click on it.
    pub fn apply_inventory(&mut self, slots: &Option<Vec<InventorySlot>>) -> (r: ScanOutcome)
        ensures
            match slots {
                None => r == ScanOutcome::NoInventory && *final(self) == *old(self),
                Some(v) => match r {
                    ScanOutcome::Click(i) => {
                        &&& i < v@.len()
                        &&& slot_matches(v@[i as int], VISIT_LABEL@)
                        &&& forall|j: int| 0 <= j < i ==> !slot_matches(#[trigger] v@[j], VISIT_LABEL@)
                        &&& final(self).world_spawn_timer == Some(COOLDOWN_START)
                        &&& final(self).screen_open_timer == old(self).screen_open_timer
                        &&& final(self).target == old(self).target
                    },
                    ScanOutcome::LabelNotFound => {
                        &&& forall|j: int| 0 <= j < v@.len() ==> !slot_matches(#[trigger] v@[j], VISIT_LABEL@)
                        &&& *final(self) == *old(self)
                    },
                    ScanOutcome::NoInventory => false,
                },
            },
    {
        match slots {
            None => ScanOutcome::NoInventory,
            Some(v) => match find_by_label_substring(v, VISIT_LABEL) {
                Some(i) => {
                    self.world_spawn_timer = Some(COOLDOWN_START);
                    ScanOutcome::Click(i)
                },
                None => ScanOutcome::LabelNotFound,
            },
        }
    }
}

} // verus!
