use sim_core::base::{Direction, Gamemode, ProfileProperty};
use sim_core::hlist::{HCons, HList, HListRef, Here, Plucker, PluckerRef, There, Tuple, TupleRef};

#[test]
fn tuple_to_hlist_and_back() {
    let h = (1u32, "two", 3.0f64).hlist();
    assert_eq!(h.head, 1u32);
    assert_eq!(h.tail.head, "two");
    assert_eq!(h.tail.tail.head, 3.0f64);
    let t = h.flatten();
    assert_eq!(t.0, 1u32);
    assert_eq!(t.1, "two");
    assert_eq!(t.2, 3.0f64);
}

#[test]
fn unit_and_single_roundtrip() {
    let h = (5u8,).hlist();
    assert_eq!(h.head, 5u8);
    assert_eq!(h.flatten(), (5u8,));
    let unit_list: () = ().hlist();
    let unit_tuple: () = HList::flatten(unit_list);
    assert_eq!(unit_tuple, ());
}

#[test]
fn pluck_by_type() {
    let h = (7u32, 8u64).hlist();
    let (target, remainder): (u64, _) = Plucker::<u64, There<Here>>::pluck(h);
    assert_eq!(target, 8u64);
    assert_eq!(remainder.head, 7u32);

    let h2 = (7u32, 8u64).hlist();
    let (target2, remainder2): (u32, _) = Plucker::<u32, Here>::pluck(h2);
    assert_eq!(target2, 7u32);
    assert_eq!(remainder2.head, 8u64);
}

#[test]
fn pluck_by_ref() {
    let a = 10u32;
    let b = 11u64;
    let h = HCons { head: &a, tail: HCons { head: &b, tail: () } };
    let got: &u64 = PluckerRef::<u64, There<Here>>::pluck(&h);
    assert_eq!(*got, 11u64);
    let got2: &u32 = PluckerRef::<u32, Here>::pluck(&h);
    assert_eq!(*got2, 10u32);
}

#[test]
fn direction_ids_roundtrip() {
    for d in [Direction::North, Direction::South, Direction::East, Direction::West] {
        assert_eq!(Direction::from_id(d.to_id()), Some(d));
    }
    assert_eq!(Direction::from_id(4), None);
}

#[test]
fn gamemode_ids_roundtrip() {
    for g in [Gamemode::Survival, Gamemode::Creative, Gamemode::Adventure, Gamemode::Spectator] {
        assert_eq!(Gamemode::from_id(g.to_id()), Some(g));
    }
    assert_eq!(Gamemode::from_id(200), None);
}

#[test]
fn profile_property_holds_its_fields() {
    let p = ProfileProperty {
        name: String::from("textures"),
        value: String::from("dGV4dHVyZS1kYXRh"),
        signature: String::from("sig"),
    };
    assert_eq!(p.name, "textures");
    let q = p.clone();
    assert_eq!(q.value, p.value);
}

#[test]
fn tuple_of_refs_roundtrip() {
    let a = 1u16;
    let b = 2u32;
    let h = (&a, &b).hlist();
    assert_eq!(*h.head, 1u16);
    assert_eq!(*h.tail.head, 2u32);
    let t = HListRef::flatten(&h);
    assert_eq!(*t.0, 1u16);
    assert_eq!(*t.1, 2u32);
}
