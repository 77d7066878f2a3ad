use recursive_variadic::{ByName, ByType, Entry, Key, Numbered, RecursiveVariadic};
use std::marker::PhantomData;

#[test]
fn values_are_found_by_their_types() {
    let chain = ()
        .and::<ByType<i32>>(23)
        .and::<ByType<&'static str>>("Hello!")
        .and_default::<ByType<usize>>();
    assert_eq!(chain.get::<ByType<i32>>(), Some(&23));
    assert_eq!(chain.get::<ByType<&'static str>>(), Some(&"Hello!"));
    assert_eq!(chain.get::<ByType<bool>>(), None);
    assert_eq!(chain.get::<ByType<usize>>(), Some(&0));
}

/// The key of the list of `N`s.
struct ListOf<N> {
    marker: PhantomData<N>,
}

impl<N: 'static> Key for ListOf<N> {
    type Value = Vec<N>;

    type Identity = ByName;
}

/// A chain that keeps one list for each type of element.
struct Lists<C: RecursiveVariadic> {
    chain: C,
}

impl Lists<()> {
    fn new() -> Self {
        Lists { chain: () }
    }
}

impl<C: RecursiveVariadic> Lists<C> {
    fn get<N: 'static>(&self) -> Option<&Vec<N>> {
        self.chain.get::<ListOf<N>>()
    }

    fn get_mut<N: 'static>(&mut self) -> Option<&mut Vec<N>> {
        self.chain.get_mut::<ListOf<N>>()
    }

    fn and<N: 'static>(self, list: Vec<N>) -> Lists<Entry<ListOf<N>, C>> {
        Lists { chain: self.chain.and::<ListOf<N>>(list) }
    }

    fn and_default<N: 'static>(self) -> Lists<Entry<ListOf<N>, C>> {
        Lists { chain: self.chain.and_default::<ListOf<N>>() }
    }
}

#[test]
fn one_list_for_each_element_type() {
    let mut lists =
        Lists::new().and_default::<usize>().and_default::<bool>().and_default::<u32>();
    lists.get_mut::<usize>().unwrap().push(1);
    lists.get_mut::<bool>().unwrap().push(true);
    lists.get_mut::<u32>().unwrap().push(5);
    assert_eq!(lists.get::<u32>().unwrap().len(), 1);
    assert_eq!(lists.get::<u32>(), Some(&vec![5u32]));
    assert_eq!(lists.get::<usize>(), Some(&vec![1usize]));
    assert_eq!(lists.get::<bool>(), Some(&vec![true]));
    assert!(lists.get::<&'static str>().is_none());
}

#[test]
fn a_list_put_in_whole_is_found() {
    let lists = Lists::new().and::<u8>(vec![1, 2]).and_default::<u16>();
    assert_eq!(lists.get::<u8>(), Some(&vec![1u8, 2]));
    assert_eq!(lists.get::<u16>(), Some(&Vec::new()));
    assert!(lists.get::<u32>().is_none());
}

struct A;

impl Key for A {
    type Value = Vec<usize>;

    type Identity = ByName;
}

struct B;

impl Key for B {
    type Value = bool;

    type Identity = ByName;
}

#[test]
fn a_key_names_its_value() {
    let mut chain = ().and_default::<A>();
    chain.get_mut::<A>().unwrap().push(1);
    assert_eq!(chain.get::<A>().unwrap().len(), 1);
    assert_eq!(chain.get::<A>(), Some(&vec![1usize]));
    assert!(chain.get::<B>().is_none());

    let chain = chain.and::<B>(true);
    assert_eq!(chain.get::<B>(), Some(&true));
    assert_eq!(chain.get::<A>().unwrap().len(), 1);
}

type Sizes = Numbered<0, Vec<usize>>;

type Flag = Numbered<1, bool>;

#[test]
fn a_numbered_key_names_its_value() {
    let mut chain = ().and_default::<Sizes>();
    chain.get_mut::<Sizes>().unwrap().push(1);
    assert_eq!(chain.get::<Sizes>().unwrap().len(), 1);
    assert!(chain.get::<Flag>().is_none());

    let chain = chain.and::<Flag>(true);
    assert_eq!(chain.get::<Flag>(), Some(&true));
    assert_eq!(chain.get::<Sizes>(), Some(&vec![1usize]));
}

#[test]
fn one_list_for_each_element_type_by_type() {
    let mut lists = ()
        .and_default::<ByType<Vec<usize>>>()
        .and_default::<ByType<Vec<bool>>>()
        .and_default::<ByType<Vec<u32>>>();
    lists.get_mut::<ByType<Vec<usize>>>().unwrap().push(1);
    lists.get_mut::<ByType<Vec<bool>>>().unwrap().push(true);
    lists.get_mut::<ByType<Vec<u32>>>().unwrap().push(7);
    assert_eq!(lists.get::<ByType<Vec<u32>>>().unwrap().len(), 1);
    assert_eq!(lists.get::<ByType<Vec<u32>>>(), Some(&vec![7u32]));
    assert!(lists.get::<ByType<Vec<String>>>().is_none());
}
