use cactus_care::{Cactus, CactusResponse, CactusStorage, CactusStore, FlowerColor, GrowthStage, RejectionKind, UserStats};

const SEC: i64 = 1_000_000;
const T0: i64 = 1_700_000_000 * SEC;

fn plant(level: u8, stage: GrowthStage, total: u32, streak: u32) -> Cactus {
    let mut c = Cactus::new("u".to_string(), "My Cactus".to_string());
    c.water_level = level;
    c.growth_stage = stage;
    c.total_waterings = total;
    c.consecutive_days = streak;
    c
}

#[test]
fn new_cactus_starts_young() {
    let c = Cactus::new("alice".to_string(), "My Cactus".to_string());
    assert_eq!(c.user_id, "alice");
    assert_eq!(c.water_level, 50);
    assert_eq!(c.growth_stage, GrowthStage::Young);
    assert!(c.flowers.is_empty());
    assert!(c.last_watered.is_none());
    assert_eq!(c.total_waterings, 0);
    assert_eq!(c.consecutive_days, 0);
    assert!(c.can_water());
    assert_eq!(c.get_next_watering_time(), None);
    let d = Cactus::new("alice".to_string(), "My Cactus".to_string());
    assert_ne!(c.id, d.id);
    assert!(!c.id.is_empty());
}

#[test]
fn alice_scenario() {
    let mut c = Cactus::new("alice".to_string(), "My Cactus".to_string());
    let m = c.water_at(T0, "f1".to_string()).unwrap();
    assert_eq!(m, "Cactus watered! Water level: 70%");
    assert_eq!(c.water_level, 70);
    assert_eq!(c.growth_stage, GrowthStage::Mature);
    assert_eq!(c.total_waterings, 1);
    assert_eq!(c.consecutive_days, 1);
    assert!(c.flowers.is_empty());

    let before = (c.water_level, c.total_waterings, c.consecutive_days, c.last_watered);
    assert_eq!(c.water_at(T0 + 5 * SEC, "f2".to_string()), Err(RejectionKind::NotReady));
    assert_eq!(before, (c.water_level, c.total_waterings, c.consecutive_days, c.last_watered));

    let m = c.water_at(T0 + 10 * SEC, "f3".to_string()).unwrap();
    assert_eq!(m, "Cactus watered! Water level: 90%");
    assert_eq!(c.growth_stage, GrowthStage::Elder);
    assert_eq!(c.total_waterings, 2);
    assert_eq!(c.consecutive_days, 2);
    assert!(c.flowers.is_empty());

    let m = c.water_at(T0 + 20 * SEC, "f4".to_string()).unwrap();
    assert_eq!(m, "Cactus watered! Water level: 100% New flower bloomed!");
    assert_eq!(c.water_level, 100);
    assert_eq!(c.total_waterings, 3);
    assert_eq!(c.consecutive_days, 3);
    assert_eq!(c.flowers.len(), 1);
    assert_eq!(c.flowers[0].color, FlowerColor::Yellow);
    assert_eq!(c.flowers[0].id, "f4");
    assert_eq!(c.flowers[0].bloomed_at, T0 + 20 * SEC);
    assert_eq!(c.flowers[0].wilting_at, None);
}

#[test]
fn cooldown_boundary() {
    let mut c = plant(50, GrowthStage::Young, 0, 0);
    c.last_watered = Some(T0);
    assert!(!c.can_water_at(T0 + 10 * SEC - 1));
    assert!(c.can_water_at(T0 + 10 * SEC));
    assert_eq!(c.get_next_watering_time_at(T0), Some(10));
    assert_eq!(c.get_next_watering_time_at(T0 + 3 * SEC + 500_000), Some(6));
    assert_eq!(c.get_next_watering_time_at(T0 + 30 * SEC), Some(0));
}

#[test]
fn growth_stage_bands() {
    let cases = [(20u8, GrowthStage::Sprout), (39, GrowthStage::Sprout),
        (40, GrowthStage::Young), (59, GrowthStage::Young), (60, GrowthStage::Mature), (79, GrowthStage::Mature),
        (80, GrowthStage::Elder), (100, GrowthStage::Elder)];
    for (start, stage) in cases {
        let mut c = plant(start - 20, GrowthStage::Young, 0, 0);
        c.growth_stage = match start - 20 {
            0..=19 => GrowthStage::Seed,
            20..=39 => GrowthStage::Sprout,
            40..=59 => GrowthStage::Young,
            60..=79 => GrowthStage::Mature,
            _ => GrowthStage::Elder,
        };
        c.water_at(T0, "f".to_string()).unwrap();
        assert_eq!(c.growth_stage, stage, "level {}", start);
    }
}

#[test]
fn bloom_colors_cycle() {
    let expected = [FlowerColor::Red, FlowerColor::Pink, FlowerColor::Yellow, FlowerColor::White, FlowerColor::Purple, FlowerColor::Red];
    for (k, color) in expected.iter().enumerate() {
        let mut c = plant(80, GrowthStage::Elder, k as u32, 5);
        c.water_at(T0, "f".to_string()).unwrap();
        assert_eq!(c.total_waterings, k as u32 + 1);
        assert_eq!(c.flowers.len(), 1);
        assert_eq!(c.flowers[0].color, *color);
    }
}

#[test]
fn no_bloom_below_thresholds() {
    let mut low = plant(40, GrowthStage::Young, 4, 4);
    low.water_at(T0, "f".to_string()).unwrap();
    assert_eq!(low.water_level, 60);
    assert!(low.flowers.is_empty());
    let mut short = plant(90, GrowthStage::Elder, 1, 1);
    short.water_at(T0, "f".to_string()).unwrap();
    assert!(short.flowers.is_empty());
}

#[test]
fn stats_count_flowers() {
    let mut c = plant(80, GrowthStage::Elder, 4, 4);
    c.water_at(T0, "a".to_string()).unwrap();
    c.water_at(T0 + 10 * SEC, "b".to_string()).unwrap();
    c.flowers[0].wilting_at = Some(T0);
    let s = c.get_user_stats();
    assert_eq!(s, UserStats { total_waterings: 6, consecutive_days: 6, total_flowers: 2, current_flowers: 1 });
}

#[test]
fn rejection_message_text() {
    assert_eq!(RejectionKind::NotReady.message(), "Cactus is not ready for watering yet! Please wait a bit.");
}

#[test]
fn responses() {
    let mut c = plant(50, GrowthStage::Young, 0, 0);
    c.last_watered = Some(T0);
    let r = CactusResponse::for_state(c, T0 + 2 * SEC);
    assert!(!r.can_water);
    assert_eq!(r.message, "Cactus was recently watered, please wait a bit.");
    assert_eq!(r.next_watering_in, Some(8));
    let r = CactusResponse::for_state(r.cactus, T0 + 12 * SEC);
    assert!(r.can_water);
    assert_eq!(r.message, "Cactus is ready for watering!");
    let w = CactusResponse::welcome(r.cactus);
    assert!(w.can_water);
    assert_eq!(w.message, "Welcome! Your cactus is ready to grow.");
    let a = CactusResponse::after_watering(w.cactus, Err(RejectionKind::NotReady), T0 + 12 * SEC);
    assert!(!a.can_water);
    assert_eq!(a.message, "Cactus is not ready for watering yet! Please wait a bit.");
    assert_eq!(a.next_watering_in, Some(0));
}

#[test]
fn store_upsert_and_lookup() {
    let mut s = CactusStore::new();
    assert!(s.get("alice").is_none());
    s.insert(Cactus::new("alice".to_string(), "A".to_string()));
    s.insert(Cactus::new("bob".to_string(), "B".to_string()));
    let mut a = s.get("alice").unwrap();
    assert_eq!(a.name, "A");
    a.water_at(T0, "f".to_string()).unwrap();
    s.insert(a);
    assert_eq!(s.get("alice").unwrap().water_level, 70);
    assert_eq!(s.get("bob").unwrap().water_level, 50);
    assert_eq!(s.stats_for("alice").total_waterings, 1);
}

#[test]
fn stats_for_unknown_user_are_zero() {
    let storage = CactusStorage::new();
    let z = UserStats { total_waterings: 0, consecutive_days: 0, total_flowers: 0, current_flowers: 0 };
    assert_eq!(storage.user_stats("nobody"), z);
    assert!(storage.get_cactus("nobody").is_none());
}

#[test]
fn fetch_or_create_is_stable() {
    let storage = CactusStorage::new();
    let first = storage.fetch_or_create("alice".to_string());
    assert_eq!(first.message, "Welcome! Your cactus is ready to grow.");
    assert_eq!(first.cactus.water_level, 50);
    assert_eq!(first.cactus.growth_stage, GrowthStage::Young);
    let second = storage.fetch_or_create("alice".to_string());
    let third = storage.fetch_or_create("alice".to_string());
    assert_eq!(second.cactus.id, first.cactus.id);
    assert_eq!(second.cactus.id, third.cactus.id);
    assert_eq!(second.cactus.created_at, third.cactus.created_at);
    assert_eq!(second.cactus.water_level, third.cactus.water_level);
    assert_eq!(second.message, "Cactus is ready for watering!");
}

#[test]
fn storage_water_flow() {
    let storage = CactusStorage::new();
    let r = storage.water_cactus("carol".to_string());
    assert_eq!(r.message, "Cactus watered! Water level: 70%");
    assert!(!r.can_water);
    assert!(matches!(r.next_watering_in, Some(9) | Some(10)));
    let again = storage.water_cactus("carol".to_string());
    assert_eq!(again.message, "Cactus is not ready for watering yet! Please wait a bit.");
    assert_eq!(again.cactus.water_level, 70);
    let s = storage.user_stats("carol");
    assert_eq!((s.total_waterings, s.consecutive_days, s.total_flowers), (1, 1, 0));
    let kept = storage.update_cactus(storage.get_cactus("carol").unwrap());
    assert_eq!(kept.total_waterings, 1);
}

#[test]
fn new_at_records_identity_and_birth() {
    let c = Cactus::new_at("dave".to_string(), "Spike".to_string(), "id-1".to_string(), T0);
    assert_eq!(c.id, "id-1");
    assert_eq!(c.created_at, T0);
    assert_eq!(c.name, "Spike");
    assert_eq!(c.water_level, 50);
}

#[test]
fn exhausted_counters_are_refused() {
    let mut c = plant(50, GrowthStage::Young, u32::MAX, 3);
    assert_eq!(c.water_at(T0, "f".to_string()), Err(RejectionKind::CountersExhausted));
    assert_eq!(c.water_level, 50);
    assert_eq!(RejectionKind::CountersExhausted.message(), "Cactus cannot count any more waterings.");
}

#[test]
fn water_keeps_identity() {
    let mut c = Cactus::new("erin".to_string(), "My Cactus".to_string());
    let (id, created) = (c.id.clone(), c.created_at);
    assert!(c.water().is_ok());
    assert!(c.water().is_err());
    assert_eq!((c.id.clone(), c.created_at, c.user_id.clone()), (id, created, "erin".to_string()));
    assert_eq!(c.water_level, 70);
}

#[test]
fn store_fetch_or_insert() {
    let mut s = CactusStore::new();
    let first = s.fetch_or_insert("alice".to_string(), T0, "id-a".to_string());
    assert_eq!(first.message, "Welcome! Your cactus is ready to grow.");
    assert!(first.can_water);
    assert_eq!(first.next_watering_in, None);
    assert_eq!(first.cactus.id, "id-a");
    assert_eq!(first.cactus.created_at, T0);
    assert_eq!(first.cactus.name, "My Cactus");
    let second = s.fetch_or_insert("alice".to_string(), T0 + SEC, "id-b".to_string());
    assert_eq!(second.cactus.id, "id-a");
    assert_eq!(second.message, "Cactus is ready for watering!");
    assert_eq!(s.get("alice").unwrap().id, "id-a");
}

#[test]
fn store_water_user_scenario() {
    let mut s = CactusStore::new();
    s.fetch_or_insert("alice".to_string(), T0, "id-a".to_string());
    let r = s.water_user("alice".to_string(), T0, "f1".to_string(), "x".to_string());
    assert_eq!(r.message, "Cactus watered! Water level: 70%");
    assert_eq!((r.cactus.water_level, r.cactus.growth_stage, r.cactus.total_waterings, r.cactus.consecutive_days), (70, GrowthStage::Mature, 1, 1));
    assert_eq!(r.cactus.last_watered, Some(T0));
    assert!(!r.can_water);
    assert_eq!(r.next_watering_in, Some(10));
    let r = s.water_user("alice".to_string(), T0 + 5 * SEC, "f2".to_string(), "x".to_string());
    assert_eq!(r.message, "Cactus is not ready for watering yet! Please wait a bit.");
    assert_eq!(r.next_watering_in, Some(5));
    assert_eq!(s.get("alice").unwrap().water_level, 70);
    let r = s.water_user("alice".to_string(), T0 + 10 * SEC, "f3".to_string(), "x".to_string());
    assert_eq!((r.cactus.water_level, r.cactus.growth_stage, r.cactus.total_waterings), (90, GrowthStage::Elder, 2));
    let r = s.water_user("alice".to_string(), T0 + 20 * SEC, "f4".to_string(), "x".to_string());
    assert_eq!(r.message, "Cactus watered! Water level: 100% New flower bloomed!");
    assert_eq!(r.cactus.flowers.len(), 1);
    assert_eq!(r.cactus.flowers[0].color, FlowerColor::Yellow);
    let stored = s.get("alice").unwrap();
    assert_eq!((stored.water_level, stored.total_waterings, stored.flowers.len()), (100, 3, 1));
    assert_eq!(s.stats_for("alice"), UserStats { total_waterings: 3, consecutive_days: 3, total_flowers: 1, current_flowers: 1 });
}

#[test]
fn store_water_unseen_user() {
    let mut s = CactusStore::new();
    let r = s.water_user("bob".to_string(), T0, "f".to_string(), "id-b".to_string());
    assert_eq!(r.cactus.id, "id-b");
    assert_eq!(r.cactus.water_level, 70);
    assert_eq!(r.cactus.total_waterings, 1);
    assert_eq!(r.message, "Cactus watered! Water level: 70%");
    assert_eq!(s.get("bob").unwrap().total_waterings, 1);
    assert!(s.get("carol").is_none());
    assert_eq!(s.stats_for("carol"), UserStats { total_waterings: 0, consecutive_days: 0, total_flowers: 0, current_flowers: 0 });
}
