use pointer_value_pair::Cow;
use std::cell::Cell;

#[derive(Clone)]
struct DropTest<'a> {
    flag: &'a Cell<bool>,
}

impl<'a> Drop for DropTest<'a> {
    fn drop(&mut self) {
        self.flag.set(true)
    }
}

struct Counted<'a> {
    id: u32,
    clones: &'a Cell<usize>,
    drops: &'a Cell<usize>,
}

impl<'a> Clone for Counted<'a> {
    fn clone(&self) -> Self {
        self.clones.set(self.clones.get() + 1);
        Counted { id: self.id, clones: self.clones, drops: self.drops }
    }
}

impl<'a> Drop for Counted<'a> {
    fn drop(&mut self) {
        self.drops.set(self.drops.get() + 1)
    }
}

fn six<'a>(clones: &'a Cell<usize>, drops: &'a Cell<usize>) -> Vec<Counted<'a>> {
    let mut v = Vec::new();
    let mut id: u32 = 0;
    while id < 6 {
        v.push(Counted { id, clones, drops });
        id += 1;
    }
    v
}

#[test]
fn owned_cow_drop() {
    let drop_flag = Cell::new(false);

    {
        let drop_test = DropTest { flag: &drop_flag };
        let cow = Cow::owned(Box::new(drop_test));
        let cow = cow.into_owned_cow();
        assert!(!drop_flag.get());
        let boxed = cow.into_owned();
        assert!(!drop_flag.get());
        let _cow = Cow::owned(boxed);
        assert!(!drop_flag.get());
    }

    assert!(drop_flag.get());
}

#[test]
fn an_adopted_value_is_destroyed_once_with_its_container() {
    let clones = Cell::new(0);
    let drops = Cell::new(0);
    let cow = Cow::owned(Box::new(Counted { id: 1, clones: &clones, drops: &drops }));
    assert!(cow.is_owned());
    assert_eq!(cow.id, 1);
    assert_eq!(drops.get(), 0);
    drop(cow);
    assert_eq!(drops.get(), 1);
    assert_eq!(clones.get(), 0);
}

#[test]
fn a_borrowed_value_outlives_its_container() {
    let clones = Cell::new(0);
    let drops = Cell::new(0);
    let v = Counted { id: 2, clones: &clones, drops: &drops };
    let cow = Cow::borrowed(&v);
    assert!(!cow.is_owned());
    assert_eq!(cow.id, 2);
    drop(cow);
    assert_eq!(drops.get(), 0);
    drop(v);
    assert_eq!(drops.get(), 1);
    assert_eq!(clones.get(), 0);
}

#[test]
fn taking_the_value_out_of_an_owner_clones_nothing() {
    let clones = Cell::new(0);
    let drops = Cell::new(0);
    let boxed = Box::new(Counted { id: 3, clones: &clones, drops: &drops });
    let place = std::ptr::from_ref(&*boxed).addr();
    let out = Cow::owned(boxed).into_owned();
    assert_eq!(std::ptr::from_ref(&*out).addr(), place);
    assert_eq!(out.id, 3);
    assert_eq!(clones.get(), 0);
    assert_eq!(drops.get(), 0);
    drop(out);
    assert_eq!(drops.get(), 1);
}

#[test]
fn taking_the_value_out_of_a_borrow_clones_once() {
    let clones = Cell::new(0);
    let drops = Cell::new(0);
    let v = Counted { id: 4, clones: &clones, drops: &drops };
    let out = Cow::borrowed(&v).into_owned();
    assert_eq!(clones.get(), 1);
    assert_eq!(out.id, 4);
    assert!(!std::ptr::eq(&*out, &v));
    drop(out);
    assert_eq!(drops.get(), 1);
    assert_eq!(v.id, 4);
    drop(v);
    assert_eq!(drops.get(), 2);
}

#[test]
fn an_owner_becomes_an_owner_without_a_clone() {
    let clones = Cell::new(0);
    let drops = Cell::new(0);
    let boxed = Box::new(Counted { id: 5, clones: &clones, drops: &drops });
    let place = std::ptr::from_ref(&*boxed).addr();
    let moved = Cow::owned(boxed).into_owned_cow();
    assert!(moved.is_owned());
    assert_eq!(std::ptr::from_ref(&*moved).addr(), place);
    assert_eq!(clones.get(), 0);
    assert_eq!(drops.get(), 0);
    drop(moved);
    assert_eq!(drops.get(), 1);
}

#[test]
fn a_borrow_becomes_an_owner_of_a_clone() {
    let clones = Cell::new(0);
    let drops = Cell::new(0);
    let v = Counted { id: 6, clones: &clones, drops: &drops };
    let owner = Cow::borrowed(&v).into_owned_cow();
    assert!(owner.is_owned());
    assert_eq!(owner.id, 6);
    assert_eq!(clones.get(), 1);
    assert!(!std::ptr::eq(&*owner, &v));
    drop(owner);
    assert_eq!(drops.get(), 1);
    drop(v);
    assert_eq!(drops.get(), 2);
}

#[test]
fn an_owner_made_from_a_borrow_may_outlive_the_referent() {
    let owner: Cow<'static, String> = {
        let local = String::from("kept");
        Cow::borrowed(&local).into_owned_cow()
    };
    assert_eq!(owner.as_str(), "kept");
    assert_eq!(*owner.into_owned(), "kept");
}

#[test]
fn both_states_read_the_same_way() {
    let v = 17i64;
    let b = Cow::borrowed(&v);
    let o = Cow::owned(Box::new(17i64));
    assert_eq!(*b, 17);
    assert_eq!(*o, 17);
    assert_eq!(*b, *o);
    assert!(std::ptr::eq(&*b, &v));
    assert!(o.is_owned() && !b.is_owned());
}

#[test]
fn a_byte_can_be_owned() {
    let o = Cow::owned(Box::new(200u8));
    assert!(o.is_owned());
    assert_eq!(*o, 200);
    assert_eq!(*o.into_owned(), 200);
}

#[test]
fn six_adopted_elements_are_destroyed_with_the_container() {
    let clones = Cell::new(0);
    let drops = Cell::new(0);
    let cow = Cow::owned(six(&clones, &drops).into_boxed_slice());
    assert!(cow.is_owned());
    assert_eq!(cow.len(), 6);
    assert_eq!(cow[5].id, 5);
    assert_eq!(drops.get(), 0);
    drop(cow);
    assert_eq!(drops.get(), 6);
    assert_eq!(clones.get(), 0);
}

#[test]
fn six_borrowed_elements_are_destroyed_with_their_storage() {
    let clones = Cell::new(0);
    let drops = Cell::new(0);
    let storage = six(&clones, &drops);
    let view = Cow::borrowed(&storage[..]);
    assert!(!view.is_owned());
    assert_eq!(view.len(), 6);
    assert_eq!(view[0].id, 0);
    drop(view);
    assert_eq!(drops.get(), 0);
    drop(storage);
    assert_eq!(drops.get(), 6);
    assert_eq!(clones.get(), 0);
}

#[test]
fn a_borrowed_slice_is_copied_into_a_new_allocation() {
    let storage = [3u16, 1, 4, 1, 5, 9];
    let out = Cow::borrowed(&storage[..]).into_owned();
    assert_eq!(&*out, &[3u16, 1, 4, 1, 5, 9][..]);
    assert_ne!(out.as_ptr().addr(), storage.as_ptr().addr());
    let owner = Cow::borrowed(&storage[..]).into_owned_cow();
    assert!(owner.is_owned());
    assert_eq!(&*owner, &storage[..]);
    assert_ne!(owner.as_ptr().addr(), storage.as_ptr().addr());
}

#[test]
fn an_owned_slice_is_handed_over_as_it_is() {
    let boxed: Box<[u32]> = vec![7, 8, 9].into_boxed_slice();
    let place = boxed.as_ptr().addr();
    let moved = Cow::owned(boxed).into_owned_cow();
    assert!(moved.is_owned());
    assert_eq!(moved.as_ptr().addr(), place);
    let out = moved.into_owned();
    assert_eq!(out.as_ptr().addr(), place);
    assert_eq!(&*out, &[7u32, 8, 9][..]);
}

#[test]
fn slices_of_length_zero_and_one_convert() {
    let none: [u8; 0] = [];
    let out = Cow::borrowed(&none[..]).into_owned();
    assert_eq!(out.len(), 0);
    let one = [42u8];
    let owner = Cow::borrowed(&one[..]).into_owned_cow();
    assert_eq!(&*owner, &[42u8][..]);
}
