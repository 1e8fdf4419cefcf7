use rakukan::engine::dm_registry::{
    ensure_live, expire, expire_all, is_live, lookup, register, seen, DmRegistry, DmSeen,
};

#[test]
fn register_then_expire_marks_generation_dead() {
    let mut reg = DmRegistry::default();
    let a = reg.register(0x10);
    assert!(reg.is_live(a));
    assert_eq!(reg.expire(0x10), (a, true));
    assert!(!reg.is_live(a));
    // 二重の失効は同じ世代を返し、失効はしない
    assert_eq!(reg.expire(0x10), (a, false));
    assert_eq!(reg.dead_count(), 1);
}

/// 破棄後に同じアドレスで再初期化されると世代が進み、旧世代は生存と判定されない。
#[test]
fn same_address_reinit_gets_new_generation() {
    let mut reg = DmRegistry::default();
    let old = reg.register(0x10);
    reg.expire(0x10);
    let new = reg.register(0x10);
    assert_ne!(old, new);
    assert!(reg.is_live(new));
    assert!(!reg.is_live(old));
    // 上書きで死んだ slot は消えている
    assert_eq!(reg.dead_count(), 0);
    // 目撃は現在の世代を返す
    assert_eq!(reg.lookup(0x10), Some(new));
}

/// 台帳に無い ptr は目撃しても登録されない（未知の ptr は死んだ扱い）。
#[test]
fn lookup_does_not_register_unknown_pointer() {
    let mut reg = DmRegistry::default();
    assert_eq!(reg.lookup(0x20), None);
    assert_eq!(reg.live_count(), 0);
    // 登録してから目撃すれば世代が返る
    let a = reg.register(0x20);
    assert_eq!(reg.lookup(0x20), Some(a));
}

/// 破棄後に届いた通知は死んだ世代をそのまま返す（新しい世代を作らない）。
#[test]
fn lookup_after_expire_returns_dead_generation() {
    let mut reg = DmRegistry::default();
    let a = reg.register(0x10);
    reg.expire(0x10);
    let seen = reg.lookup(0x10).unwrap();
    assert_eq!(seen, a);
    assert!(!reg.is_live(seen));
}

/// 未登録の ptr への Uninit は死んだ slot を作り、続く通知は死んだ世代に解決される。
#[test]
fn expire_of_unknown_pointer_records_dead_slot() {
    let mut reg = DmRegistry::default();
    let (dead, expired) = reg.expire(0x30);
    assert!(!expired);
    assert_eq!(reg.dead_count(), 1);
    assert_eq!(reg.lookup(0x30), Some(dead));
    assert!(!reg.is_live(dead));
    // 生存中として登録し直すには新しい登録が必要で、世代は進む
    let (again, fresh) = reg.ensure_live(0x30);
    assert!(fresh);
    assert!(again.generation > dead.generation);
    assert!(reg.is_live(again));
    assert!(!reg.is_live(dead));
}

/// 列挙による登録は生存中の ptr の世代を進めない。死んだ slot の ptr は新しい世代になる。
#[test]
fn ensure_live_keeps_generation_of_live_pointer() {
    let mut reg = DmRegistry::default();
    let a = reg.register(0x10);
    let (same, fresh) = reg.ensure_live(0x10);
    assert_eq!(same, a);
    assert!(!fresh);
    assert!(reg.is_live(a));

    reg.expire(0x10);
    let (renewed, fresh) = reg.ensure_live(0x10);
    assert!(fresh);
    assert_ne!(renewed, a);
    assert!(reg.is_live(renewed));
    assert!(!reg.is_live(a));
    assert_eq!(reg.dead_count(), 0);

    // 未知の ptr は新規登録
    let (new, fresh) = reg.ensure_live(0x40);
    assert!(fresh);
    assert!(reg.is_live(new));
}

/// Deactivate → DM 破棄（通知は届かない）→ 再 Activate。
#[test]
fn expire_all_invalidates_refs_from_before_deactivate() {
    let mut reg = DmRegistry::default();
    let a = reg.register(0x10);
    let b = reg.register(0x20);
    let mut expired = reg.expire_all();
    expired.sort_by_key(|d| d.generation);
    assert_eq!(expired, vec![a, b]);
    assert!(!reg.is_live(a));
    assert!(!reg.is_live(b));
    assert_eq!(reg.live_count(), 0);
    // 再 Activate: 0x10 は残っていて列挙に現れ、0x20 は破棄されて現れない
    let (a2, fresh) = reg.ensure_live(0x10);
    assert!(fresh);
    assert!(reg.is_live(a2));
    // 世代番号は戻らない: Deactivate 前の DmRef と衝突しない
    assert!(a2.generation > b.generation);
    assert!(!reg.is_live(a));
    assert!(!reg.is_live(b));
    // 破棄された 0x20 への古い通知は死んだ世代に解決される
    assert_eq!(reg.lookup(0x20), Some(b));
}

#[test]
fn dead_slots_are_evicted_oldest_first_over_cap() {
    let mut reg = DmRegistry::default();
    let cap = DmRegistry::DEAD_SLOT_CAP;
    let mut refs = Vec::new();
    for i in 0..(cap + 3) {
        let ptr = 0x1000 + i * 0x10;
        refs.push(reg.register(ptr));
        reg.expire(ptr);
    }
    assert_eq!(reg.dead_count(), cap);
    // 最も古い 3 つが捨てられ、未知の ptr になる
    for dm in &refs[..3] {
        assert_eq!(reg.lookup(dm.ptr), None);
        assert!(!reg.is_live(*dm));
    }
    assert_eq!(reg.lookup(refs[3].ptr), Some(refs[3]));
    // 捨てられたアドレスが再利用されても新しい世代として登録される
    let reused = reg.register(refs[0].ptr);
    assert!(reg.is_live(reused));
    assert!(!reg.is_live(refs[0]));
}

/// Uninit → 掃除で slot が消える → 古い OnSetFocus(A): 目撃しても登録されない。
#[test]
fn stale_focus_after_eviction_is_not_registered() {
    let mut reg = DmRegistry::default();
    let a = reg.register(0x1);
    reg.expire(0x1);
    for i in 0..DmRegistry::DEAD_SLOT_CAP {
        let ptr = 0x1000 + i * 0x10;
        reg.register(ptr);
        reg.expire(ptr);
    }
    // A の死んだ slot は掃除されている
    assert_eq!(reg.lookup(a.ptr), None);
    // 古い OnSetFocus(prev=A / next=A) の目撃: 登録されず、生存と判定されない
    assert_eq!(reg.lookup(a.ptr), None);
    assert!(!reg.is_live(a));
    assert_eq!(reg.live_count(), 0);
}

/// 生存中の slot は上限の対象外。
#[test]
fn live_slots_are_never_evicted() {
    let mut reg = DmRegistry::default();
    let live = reg.register(0x1);
    for i in 0..(DmRegistry::DEAD_SLOT_CAP + 5) {
        let ptr = 0x1000 + i * 0x10;
        reg.register(ptr);
        reg.expire(ptr);
    }
    assert!(reg.is_live(live));
    assert_eq!(reg.dead_count(), DmRegistry::DEAD_SLOT_CAP);
}

#[test]
fn a_document_that_is_gone_never_comes_back() {
    let mut reg = DmRegistry::default();
    let first = register(&mut reg, 0x10);
    assert_eq!(expire(&mut reg, 0x10), (first, true));
    for _ in 0..3 {
        let (next, fresh) = ensure_live(&mut reg, 0x10);
        assert!(fresh);
        assert!(!is_live(&reg, first));
        assert!(is_live(&reg, next));
        assert_eq!(expire_all(&mut reg), vec![next]);
        assert!(!is_live(&reg, next));
    }
}

#[test]
fn one_address_holds_one_document() {
    let mut reg = DmRegistry::default();
    let first = reg.register(0x10);
    let second = reg.register(0x10);
    assert!(!reg.is_live(first));
    assert!(reg.is_live(second));
    assert_eq!(reg.live_count(), 1);
    assert_eq!(lookup(&reg, 0x10), Some(second));
}

#[test]
fn what_is_seen_is_told_apart() {
    let mut reg = DmRegistry::default();
    assert_eq!(seen(&reg, 0), DmSeen::Absent);
    assert_eq!(seen(&reg, 0x10), DmSeen::Unknown(0x10));
    let dm = reg.register(0x10);
    assert_eq!(seen(&reg, 0x10), DmSeen::Known(dm));
    assert_eq!(seen(&reg, 0x10).known(), Some(dm));
    assert_eq!(seen(&reg, 0x20).known(), None);
    assert_eq!(DmSeen::Absent.known(), None);
}

#[test]
fn a_document_is_written_as_address_and_number() {
    let mut reg = DmRegistry::default();
    assert_eq!(reg.register(0x10).to_hex(), "0x10/g1");
    assert_eq!(reg.register(0xabcdef).to_hex(), "0xabcdef/g2");
}

#[test]
fn a_fresh_register_has_generations_left() {
    let mut reg = DmRegistry::default();
    assert!(reg.can_register());
    assert!(reg.can_expire(0x10));
    reg.register(0x10);
    assert!(reg.can_register());
    assert!(reg.can_expire(0x10));
}
