use vstd::prelude::*;

use crate::text::{decimal, push_decimal};

verus! {

/// Microseconds in one second; every instant is microseconds since the Unix epoch.
pub const MICROS_PER_SEC: i64 = 1000000;

/// The cooldown in microseconds.
pub const COOLDOWN_MICROS: i64 = 10000000;

/// Hydration gained by one watering, before the cap.
pub const WATER_STEP: u8 = 20;

/// The highest hydration level.
pub const MAX_LEVEL: u8 = 100;

/// Hydration a new cactus starts with.
pub const START_LEVEL: u8 = 50;

/// Growth stages, one per band of hydration.
#[derive(Clone, Copy, Debug, PartialEq, Eq, Structural)]
pub enum GrowthStage {
    Seed,
    Sprout,
    Young,
    Mature,
    Elder,
}

/// Flower colors, in the order in which blooms cycle through them.
#[derive(Clone, Copy, Debug, PartialEq, Eq, Structural)]
pub enum FlowerColor {
    Red,
    Pink,
    Yellow,
    White,
    Purple,
}

/// A flower on a cactus. Instants are microseconds since the Unix epoch.
#[derive(Debug)]
pub struct Flower {
    pub id: String,
    pub color: FlowerColor,
    pub bloomed_at: i64,
    pub wilting_at: Option<i64>,
}

/// A request to water the cactus of a user.
#[derive(Debug)]
pub struct WaterRequest {
    pub user_id: String,
}

/// Progress figures of one user.
#[derive(Clone, Copy, Debug, PartialEq, Eq, Structural)]
pub struct UserStats {
    pub total_waterings: u32,
    pub consecutive_days: u32,
    pub total_flowers: u32,
    pub current_flowers: u32,
}

/// Why a watering was refused.
#[derive(Clone, Copy, Debug, PartialEq, Eq, Structural)]
pub enum RejectionKind {
    NotReady,
    CountersExhausted,
}

/// A user's cactus. Instants are microseconds since the Unix epoch.
#[derive(Debug)]
pub struct Cactus {
    pub id: String,
    pub user_id: String,
    pub name: String,
    pub water_level: u8,
    pub growth_stage: GrowthStage,
    pub flowers: Vec<Flower>,
    pub last_watered: Option<i64>,
    pub created_at: i64,
    pub total_waterings: u32,
    pub consecutive_days: u32,
}

/// The state of a cactus as a request handler reports it.
#[derive(Debug)]
pub struct CactusResponse {
    pub cactus: Cactus,
    pub message: String,
    pub can_water: bool,
    pub next_watering_in: Option<i64>,
}

/// The stage that a hydration level implies.
pub open spec fn stage_of(level: int) -> GrowthStage {
    if level < 20 {
        GrowthStage::Seed
    } else if level < 40 {
        GrowthStage::Sprout
    } else if level < 60 {
        GrowthStage::Young
    } else if level < 80 {
        GrowthStage::Mature
    } else {
        GrowthStage::Elder
    }
}

/// The lowest hydration level of a stage's band.
pub open spec fn band_low(s: GrowthStage) -> int {
    match s {
        GrowthStage::Seed => 0,
        GrowthStage::Sprout => 20,
        GrowthStage::Young => 40,
        GrowthStage::Mature => 60,
        GrowthStage::Elder => 80,
    }
}

/// The highest hydration level of a stage's band.
pub open spec fn band_high(s: GrowthStage) -> int {
    match s {
        GrowthStage::Seed => 19,
        GrowthStage::Sprout => 39,
        GrowthStage::Young => 59,
        GrowthStage::Mature => 79,
        GrowthStage::Elder => 100,
    }
}

/// The bands partition 0..=100: they are contiguous, and each level in that
/// range lies in the band of exactly one stage, the one `stage_of` gives.
pub proof fn lemma_stage_bands(h: int)
    requires
        0 <= h <= 100,
    ensures
        forall|s: GrowthStage| (#[trigger] band_low(s) <= h <= band_high(s)) <==> stage_of(h) == s,
        band_low(GrowthStage::Seed) == 0,
        band_high(GrowthStage::Seed) + 1 == band_low(GrowthStage::Sprout),
        band_high(GrowthStage::Sprout) + 1 == band_low(GrowthStage::Young),
        band_high(GrowthStage::Young) + 1 == band_low(GrowthStage::Mature),
        band_high(GrowthStage::Mature) + 1 == band_low(GrowthStage::Elder),
        band_high(GrowthStage::Elder) == 100,
{
    assert forall|s: GrowthStage| (#[trigger] band_low(s) <= h <= band_high(s)) <==> stage_of(h) == s by {
        match s {
            GrowthStage::Seed => {},
            GrowthStage::Sprout => {},
            GrowthStage::Young => {},
            GrowthStage::Mature => {},
            GrowthStage::Elder => {},
        }
    }
}

/// The color at a position of the palette.
pub open spec fn palette(i: int) -> FlowerColor {
    if i == 0 {
        FlowerColor::Red
    } else if i == 1 {
        FlowerColor::Pink
    } else if i == 2 {
        FlowerColor::Yellow
    } else if i == 3 {
        FlowerColor::White
    } else {
        FlowerColor::Purple
    }
}

/// The color of a flower that blooms when the total count of waterings reaches `total`.
pub open spec fn bloom_color(total: int) -> FlowerColor {
    palette((total - 1) % 5)
}

/// Blooms cycle through the palette: five waterings on, the same color comes back.
pub proof fn lemma_color_cycle(total: int)
    ensures
        bloom_color(total + 5) == bloom_color(total),
{
    assert((total + 5 - 1) % 5 == (total - 1) % 5);
}

/// The hydration level after one watering.
pub open spec fn watered_level(level: int) -> int {
    if level + 20 > 100 { 100 } else { level + 20 }
}

/// Whether a cactus last watered at `last` may be watered at `now`.
pub open spec fn ready_at(last: Option<i64>, now: i64) -> bool {
    match last {
        None => true,
        Some(l) => now - l >= COOLDOWN_MICROS,
    }
}

/// Whole seconds from `now` until the cooldown after a watering at `last` ends; 0 once it has.
pub open spec fn wait_secs(last: i64, now: i64) -> int {
    let rem = last + COOLDOWN_MICROS - now;
    if rem > 0 { rem / (MICROS_PER_SEC as int) } else { 0 }
}

/// The message of a successful watering.
pub open spec fn watered_message(level: int, bloomed: bool) -> Seq<char> {
    "Cactus watered! Water level: "@ + decimal(level as nat) + "%"@
        + if bloomed { " New flower bloomed!"@ } else { ""@ }
}

/// The flower that blooms at `now` when the count of waterings reaches `total`.
pub open spec fn new_flower(id: String, total: int, now: i64) -> Flower {
    Flower { id, color: bloom_color(total), bloomed_at: now, wilting_at: None }
}

/// Whether both counters can still go up by one.
pub open spec fn can_count(c: Cactus) -> bool {
    c.total_waterings < u32::MAX && c.consecutive_days < u32::MAX
}

/// The refusal a watering at `now` meets, if any.
pub open spec fn refusal(c: Cactus, now: i64) -> Option<RejectionKind> {
    if !ready_at(c.last_watered, now) {
        Some(RejectionKind::NotReady)
    } else if !can_count(c) {
        Some(RejectionKind::CountersExhausted)
    } else {
        None
    }
}

/// Identity, owner, name and birth are equal.
pub open spec fn keeps_identity(a: Cactus, b: Cactus) -> bool {
    &&& a.id == b.id
    &&& a.user_id == b.user_id
    &&& a.name == b.name
    &&& a.created_at == b.created_at
}

/// `new` is `old` watered at `now`, with message `msg`; a flower that blooms gets `flower_id`.
pub open spec fn watered(old: Cactus, new: Cactus, msg: Seq<char>, now: i64, flower_id: String) -> bool {
    let level = watered_level(old.water_level as int);
    let bloomed = old.consecutive_days + 1 >= 3 && level >= 70;
    &&& msg == watered_message(level, bloomed)
    &&& new.water_level == level
    &&& new.growth_stage == stage_of(level)
    &&& new.last_watered == Some(now)
    &&& new.total_waterings == old.total_waterings + 1
    &&& new.consecutive_days == old.consecutive_days + 1
    &&& new.flowers@ == if bloomed {
        old.flowers@.push(new_flower(flower_id, old.total_waterings + 1, now))
    } else {
        old.flowers@
    }
    &&& keeps_identity(old, new)
}

/// Relies on `uuid::Uuid::new_v4` and its `Display`: a fresh random identifier as text.
#[verifier::external_body]
pub(crate) fn fresh_id() -> (r: String) {
    uuid::Uuid::new_v4().to_string()
}

/// Relies on `chrono::Utc::now` and `DateTime::timestamp_micros`: the current instant.
#[verifier::external_body]
pub(crate) fn now_micros() -> (r: i64) {
    chrono::Utc::now().timestamp_micros()
}

impl Flower {
    /// A copy of this flower.
    pub fn snapshot(&self) -> (r: Flower)
        ensures
            r == *self,
    {
        Flower { id: self.id.clone(), color: self.color, bloomed_at: self.bloomed_at, wilting_at: self.wilting_at }
    }
}

impl Cactus {
    /// Hydration in range, stage matching it, and no more flowers than waterings.
    pub open spec fn wf(&self) -> bool {
        &&& self.water_level <= 100
        &&& self.growth_stage == stage_of(self.water_level as int)
        &&& self.flowers@.len() <= self.total_waterings
    }

    /// Whether two cacti hold the same state.
    pub open spec fn same(&self, o: &Cactus) -> bool {
        &&& self.id == o.id
        &&& self.user_id == o.user_id
        &&& self.name == o.name
        &&& self.water_level == o.water_level
        &&& self.growth_stage == o.growth_stage
        &&& self.flowers@ == o.flowers@
        &&& self.last_watered == o.last_watered
        &&& self.created_at == o.created_at
        &&& self.total_waterings == o.total_waterings
        &&& self.consecutive_days == o.consecutive_days
    }

    /// The state of a cactus that was never watered.
    pub open spec fn is_fresh(&self, user_id: Seq<char>, name: Seq<char>) -> bool {
        &&& self.user_id@ == user_id
        &&& self.name@ == name
        &&& self.water_level == START_LEVEL
        &&& self.growth_stage == GrowthStage::Young
        &&& self.flowers@.len() == 0
        &&& self.last_watered.is_none()
        &&& self.total_waterings == 0
        &&& self.consecutive_days == 0
    }

    /// A new cactus for a user, with identifier `id`, born at `now`.
    pub fn new_at(user_id: String, name: String, id: String, now: i64) -> (r: Cactus)
        ensures
            r.is_fresh(user_id@, name@),
            r.wf(),
            r.id == id,
            r.created_at == now,
    {
        Cactus {
            id,
            user_id,
            name,
            water_level: START_LEVEL,
            growth_stage: GrowthStage::Young,
            flowers: Vec::new(),
            last_watered: None,
            created_at: now,
            total_waterings: 0,
            consecutive_days: 0,
        }
    }

    /// A new cactus for a user, with a fresh identifier and the current instant as its birth.
    pub fn new(user_id: String, name: String) -> (r: Cactus)
        ensures
            r.is_fresh(user_id@, name@),
            r.wf(),
    {
        Cactus::new_at(user_id, name, fresh_id(), now_micros())
    }

    /// A copy of this cactus.
    pub fn snapshot(&self) -> (r: Cactus)
        ensures
            r.same(self),
    {
        let mut flowers: Vec<Flower> = Vec::new();
        let mut i: usize = 0;
        while i < self.flowers.len()
            invariant
                i <= self.flowers@.len(),
                flowers@ == self.flowers@.subrange(0, i as int),
            decreases self.flowers@.len() - i,
        {
            flowers.push(self.flowers[i].snapshot());
            i = i + 1;
        }
        assert(flowers@ =~= self.flowers@);
        Cactus {
            id: self.id.clone(),
            user_id: self.user_id.clone(),
            name: self.name.clone(),
            water_level: self.water_level,
            growth_stage: self.growth_stage,
            flowers,
            last_watered: self.last_watered,
            created_at: self.created_at,
            total_waterings: self.total_waterings,
            consecutive_days: self.consecutive_days,
        }
    }

    /// Whether the cactus may be watered at `now`.
    pub fn can_water_at(&self, now: i64) -> (r: bool)
        ensures
            r == ready_at(self.last_watered, now),
    {
        match self.last_watered {
            None => true,
            Some(last) => (now as i128) - (last as i128) >= (COOLDOWN_MICROS as i128),
        }
    }

    /// Whether the cactus may be watered now.
    pub fn can_water(&self) -> (r: bool)
        ensures
            self.last_watered.is_none() ==> r,
    {
        self.can_water_at(now_micros())
    }

    /// Sets the growth stage to the one that the hydration level implies.
    fn update_growth_stage(&mut self)
        ensures
            final(self).growth_stage == stage_of(old(self).water_level as int),
            *final(self) == (Cactus { growth_stage: final(self).growth_stage, ..*old(self) }),
    {
        self.growth_stage = if self.water_level < 20 {
            GrowthStage::Seed
        } else if self.water_level < 40 {
            GrowthStage::Sprout
        } else if self.water_level < 60 {
            GrowthStage::Young
        } else if self.water_level < 80 {
            GrowthStage::Mature
        } else {
            GrowthStage::Elder
        };
    }

    /// The color of a flower that blooms now: the palette, cycled by the count of waterings.
    fn random_flower_color(&self) -> (r: FlowerColor)
        ensures
            r == bloom_color(self.total_waterings as int),
    {
        let index: u64 = (self.total_waterings as u64 + 4) % 5;
        assert(index as int == (self.total_waterings as int - 1) % 5);
        if index == 0 {
            FlowerColor::Red
        } else if index == 1 {
            FlowerColor::Pink
        } else if index == 2 {
            FlowerColor::Yellow
        } else if index == 3 {
            FlowerColor::White
        } else {
            FlowerColor::Purple
        }
    }

    /// Appends a flower when the streak is at least three and hydration at least 70;
    /// says whether one bloomed.
    fn check_for_flower(&mut self, now: i64, flower_id: String) -> (r: bool)
        ensures
            r == (old(self).consecutive_days >= 3 && old(self).water_level >= 70),
            final(self).flowers@ == if r {
                old(self).flowers@.push(new_flower(flower_id, old(self).total_waterings as int, now))
            } else {
                old(self).flowers@
            },
            *final(self) == (Cactus { flowers: final(self).flowers, ..*old(self) }),
    {
        if self.consecutive_days >= 3 && self.water_level >= 70 {
            let flower = Flower {
                id: flower_id,
                color: self.random_flower_color(),
                bloomed_at: now,
                wilting_at: None,
            };
            self.flowers.push(flower);
            true
        } else {
            false
        }
    }

    /// Waters the cactus at `now`; a flower that blooms gets `flower_id`.
    /// Refused, with the state unchanged, while the cooldown runs or when a
    /// counter is at its limit.
    pub fn water_at(&mut self, now: i64, flower_id: String) -> (r: Result<String, RejectionKind>)
        requires
            old(self).wf(),
        ensures
            final(self).wf(),
            keeps_identity(*old(self), *final(self)),
            refusal(*old(self), now) matches Some(k) ==> r == Err::<String, RejectionKind>(k) && *final(self) == *old(self),
            refusal(*old(self), now) is None ==> r is Ok && watered(*old(self), *final(self), r->Ok_0@, now, flower_id),
    {
        if !self.can_water_at(now) {
            return Err(RejectionKind::NotReady);
        }
        if self.total_waterings == u32::MAX || self.consecutive_days == u32::MAX {
            return Err(RejectionKind::CountersExhausted);
        }
        self.water_level = if self.water_level > MAX_LEVEL - WATER_STEP {
            MAX_LEVEL
        } else {
            self.water_level + WATER_STEP
        };
        self.last_watered = Some(now);
        self.total_waterings = self.total_waterings + 1;
        self.update_growth_stage();
        self.update_consecutive_days();
        let bloomed = self.check_for_flower(now, flower_id);
        let mut message = "Cactus watered! Water level: ".to_owned();
        push_decimal(&mut message, self.water_level);
        message.append("%");
        if bloomed {
            message.append(" New flower bloomed!");
        }
        proof {
            reveal_strlit("Cactus watered! Water level: ");
            reveal_strlit("%");
            reveal_strlit(" New flower bloomed!");
            reveal_strlit("");
        }
        Ok(message)
    }

    /// Waters the cactus now; see `water_at`. Whatever the clock reads and
    /// whatever identifier is drawn, a refusal leaves the state unchanged and a
    /// success is the whole transition of `water_at`.
    pub fn water(&mut self) -> (r: Result<String, RejectionKind>)
        requires
            old(self).wf(),
        ensures
            final(self).wf(),
            keeps_identity(*old(self), *final(self)),
            r is Err ==> *final(self) == *old(self),
            r is Ok ==> exists|now: i64, flower_id: String|
                #[trigger] watered(*old(self), *final(self), r->Ok_0@, now, flower_id),
            old(self).last_watered.is_none() && can_count(*old(self)) ==> r is Ok,
    {
        let now = now_micros();
        let flower_id = fresh_id();
        let ghost fid = flower_id;
        let r = self.water_at(now, flower_id);
        proof {
            if r is Ok {
                assert(watered(*old(self), *self, r->Ok_0@, now, fid));
            }
        }
        r
    }

    /// Counts one more day of the watering streak.
    fn update_consecutive_days(&mut self)
        requires
            old(self).consecutive_days < u32::MAX,
        ensures
            *final(self) == (Cactus { consecutive_days: (old(self).consecutive_days + 1) as u32, ..*old(self) }),
    {
        self.consecutive_days = self.consecutive_days + 1;
    }

    /// Seconds until the cactus may be watered again at `now`; `None` if it never was.
    pub fn get_next_watering_time_at(&self, now: i64) -> (r: Option<i64>)
        ensures
            match self.last_watered {
                None => r.is_none(),
                Some(last) => r == Some(wait_secs(last, now) as i64),
            },
    {
        match self.last_watered {
            None => None,
            Some(last) => {
                let rem: i128 = (last as i128) + (COOLDOWN_MICROS as i128) - (now as i128);
                if rem > 0 {
                    assert(rem / 1000000 <= 0x7fff_ffff_ffff_ffff) by (nonlinear_arith)
                        requires rem <= 0x1_0000_0000_0000_0000 + 10000000;
                    Some((rem / (MICROS_PER_SEC as i128)) as i64)
                } else {
                    Some(0)
                }
            },
        }
    }

    /// Seconds until the cactus may be watered again; `None` if it never was.
    pub fn get_next_watering_time(&self) -> (r: Option<i64>)
        ensures
            r.is_none() == self.last_watered.is_none(),
            r matches Some(s) ==> s >= 0,
    {
        self.get_next_watering_time_at(now_micros())
    }

    /// Counts of waterings, streak, flowers and unwilted flowers.
    pub fn get_user_stats(&self) -> (r: UserStats)
        requires
            self.wf(),
        ensures
            r.total_waterings == self.total_waterings,
            r.consecutive_days == self.consecutive_days,
            r.total_flowers == self.flowers@.len(),
            r.current_flowers == self.flowers@.filter(|f: Flower| f.wilting_at.is_none()).len(),
    {
        let mut current: u32 = 0;
        let mut i: usize = 0;
        while i < self.flowers.len()
            invariant
                i <= self.flowers@.len(),
                self.flowers@.len() <= u32::MAX,
                current == self.flowers@.subrange(0, i as int).filter(|f: Flower| f.wilting_at.is_none()).len(),
                current <= i,
            decreases self.flowers@.len() - i,
        {
            proof {
                let s = self.flowers@.subrange(0, i as int + 1);
                assert(s.drop_last() =~= self.flowers@.subrange(0, i as int));
                reveal(Seq::filter);
            }
            if self.flowers[i].wilting_at.is_none() {
                current = current + 1;
            }
            i = i + 1;
        }
        assert(self.flowers@.subrange(0, self.flowers@.len() as int) =~= self.flowers@);
        UserStats {
            total_waterings: self.total_waterings,
            consecutive_days: self.consecutive_days,
            total_flowers: self.flowers.len() as u32,
            current_flowers: current,
        }
    }
}


impl RejectionKind {
    /// The text shown for the refusal.
    pub fn message(&self) -> (r: String)
        ensures
            r@ == rejection_text(*self),
    {
        match self {
            RejectionKind::NotReady => "Cactus is not ready for watering yet! Please wait a bit.".to_owned(),
            RejectionKind::CountersExhausted => "Cactus cannot count any more waterings.".to_owned(),
        }
    }
}

/// The text shown for a refusal.
pub open spec fn rejection_text(k: RejectionKind) -> Seq<char> {
    match k {
        RejectionKind::NotReady => "Cactus is not ready for watering yet! Please wait a bit."@,
        RejectionKind::CountersExhausted => "Cactus cannot count any more waterings."@,
    }
}

/// Whole seconds until the cactus may be watered again at `now`; `None` if it never was.
pub open spec fn next_watering_in(last: Option<i64>, now: i64) -> Option<i64> {
    match last {
        None => None,
        Some(l) => Some(wait_secs(l, now) as i64),
    }
}

/// Whether `r` is the report that `CactusResponse::for_state` gives at `now`.
pub open spec fn reports_state_at(r: CactusResponse, now: i64) -> bool {
    &&& r.can_water == ready_at(r.cactus.last_watered, now)
    &&& r.message@ == if r.can_water {
        "Cactus is ready for watering!"@
    } else {
        "Cactus was recently watered, please wait a bit."@
    }
    &&& r.next_watering_in == next_watering_in(r.cactus.last_watered, now)
}

/// Whether `r` is the report on a cactus just created for `user_id`.
pub open spec fn reports_welcome(r: CactusResponse, user_id: Seq<char>) -> bool {
    &&& r.cactus.is_fresh(user_id, "My Cactus"@)
    &&& r.can_water
    &&& r.message@ == "Welcome! Your cactus is ready to grow."@
    &&& r.next_watering_in.is_none()
}

impl CactusResponse {
    /// The report on a stored cactus at `now`: whether it may be watered, and when.
    pub fn for_state(cactus: Cactus, now: i64) -> (r: CactusResponse)
        ensures
            r.cactus == cactus,
            r.can_water == ready_at(cactus.last_watered, now),
            r.message@ == if r.can_water {
                "Cactus is ready for watering!"@
            } else {
                "Cactus was recently watered, please wait a bit."@
            },
            r.next_watering_in == next_watering_in(cactus.last_watered, now),
    {
        let can_water = cactus.can_water_at(now);
        let next_watering_in = cactus.get_next_watering_time_at(now);
        let message = if can_water {
            "Cactus is ready for watering!".to_owned()
        } else {
            "Cactus was recently watered, please wait a bit.".to_owned()
        };
        CactusResponse { cactus, message, can_water, next_watering_in }
    }

    /// The report on a cactus that was just created.
    pub fn welcome(cactus: Cactus) -> (r: CactusResponse)
        ensures
            r.cactus == cactus,
            r.can_water,
            r.message@ == "Welcome! Your cactus is ready to grow."@,
            r.next_watering_in.is_none(),
    {
        CactusResponse {
            cactus,
            message: "Welcome! Your cactus is ready to grow.".to_owned(),
            can_water: true,
            next_watering_in: None,
        }
    }

    /// The report after a watering at `now`, whether it succeeded or was refused.
    pub fn after_watering(cactus: Cactus, outcome: Result<String, RejectionKind>, now: i64) -> (r: CactusResponse)
        ensures
            r.cactus == cactus,
            !r.can_water,
            r.message@ == match outcome {
                Ok(m) => m@,
                Err(k) => rejection_text(k),
            },
            r.next_watering_in == next_watering_in(cactus.last_watered, now),
    {
        let next_watering_in = cactus.get_next_watering_time_at(now);
        let message = match outcome {
            Ok(m) => m,
            Err(k) => k.message(),
        };
        CactusResponse { cactus, message, can_water: false, next_watering_in }
    }
}

} // verus!
