use freddie::sync::{GenerationMinter, Synced};

#[test]
fn the_happy_pair_lands() {
    let mut mint = GenerationMinter::default();
    let (held, riding) = mint.mint();
    let mut entry: Synced<u32> = Synced::Pending(held);
    entry.commit(&riding, 7);
    assert_eq!(entry.known(), Some(&7));
}

#[test]
fn a_commit_after_a_newer_fact_changes_nothing() {
    let mut mint = GenerationMinter::default();
    let (first_held, first_riding) = mint.mint();
    let mut entry: Synced<u32> = Synced::Pending(first_held);
    let (second_held, second_riding) = mint.mint();
    entry.change(second_held);
    entry.commit(&first_riding, 7);
    assert_eq!(entry.known(), None);
    entry.commit(&second_riding, 9);
    assert_eq!(entry.known(), Some(&9));
}

#[test]
fn a_foreign_riding_half_does_not_land() {
    let mut mint = GenerationMinter::default();
    let (held, _riding) = mint.mint();
    let (_other_held, other_riding) = mint.mint();
    let mut entry: Synced<u32> = Synced::Pending(held);
    entry.commit(&other_riding, 7);
    assert_eq!(entry.known(), None);
}

#[test]
fn a_late_half_meets_a_known_entry_and_nothing_moves() {
    let mut mint = GenerationMinter::default();
    let (held, riding) = mint.mint();
    let mut entry: Synced<u32> = Synced::Pending(held);
    entry.commit(&riding, 7);
    let (_late_held, late_riding) = mint.mint();
    entry.commit(&late_riding, 8);
    assert_eq!(entry.known(), Some(&7));
}

#[test]
fn a_fact_empties_a_known_entry() {
    let mut mint = GenerationMinter::default();
    let mut entry: Synced<&str> = Synced::Known("old");
    let (held, riding) = mint.mint();
    entry.change(held);
    assert_eq!(entry.known(), None);
    entry.commit(&riding, "new");
    assert_eq!(entry.known(), Some(&"new"));
    entry.commit(&riding, "again");
    assert_eq!(entry.known(), Some(&"new"));
}
