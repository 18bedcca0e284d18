use pi_vm::factory::VMFactory;
use pi_vm::loader::VMFactoryLoader;
use std::sync::Arc;

fn codes() -> Vec<Arc<Vec<u8>>> {
    vec![Arc::new(vec![1u8, 2, 3]), Arc::new(vec![]), Arc::new(vec![9u8])]
}

#[test]
fn loader_hands_out_blobs_in_order() {
    let mut loader = VMFactoryLoader::new(codes());
    assert!(loader.has_next());
    assert_eq!(*loader.load_next().unwrap(), vec![1u8, 2, 3]);
    assert_eq!(*loader.load_next().unwrap(), Vec::<u8>::new());
    assert!(loader.has_next());
    assert_eq!(*loader.load_next().unwrap(), vec![9u8]);
    assert!(!loader.has_next());
    assert!(loader.load_next().is_none());
}

#[test]
fn loader_exhaustion_lasts() {
    let mut loader = VMFactoryLoader::new(codes());
    while loader.load_next().is_some() {}
    for _ in 0..5 {
        assert!(loader.load_next().is_none());
        assert!(!loader.has_next());
    }
}

#[test]
fn loader_of_an_empty_list_is_exhausted_at_once() {
    let mut loader = VMFactoryLoader::new(Vec::new());
    assert!(!loader.has_next());
    assert!(loader.load_next().is_none());
    assert!(loader.load_next().is_none());
}

#[test]
fn loader_shares_the_blobs_it_hands_out() {
    let blob = Arc::new(vec![7u8; 4]);
    let mut loader = VMFactoryLoader::new(vec![blob.clone()]);
    let handed = loader.load_next().unwrap();
    assert!(Arc::ptr_eq(&handed, &blob));
}

#[test]
fn loader_clone_keeps_its_own_place() {
    let mut first = VMFactoryLoader::new(codes());
    assert!(first.load_next().is_some());
    let mut second = first.clone();
    assert_eq!(*first.load_next().unwrap(), Vec::<u8>::new());
    assert_eq!(*second.load_next().unwrap(), Vec::<u8>::new());
    assert_eq!(*second.load_next().unwrap(), vec![9u8]);
    assert_eq!(*first.load_next().unwrap(), vec![9u8]);
}

#[test]
fn loader_restart() {
    let factory = VMFactory::new("f", 2, 16 * 1024 * 1024)
        .append(Arc::new(vec![0xAAu8]))
        .append(Arc::new(vec![0xBBu8, 0xCC]));
    let mut l1 = factory.loader();
    let mut seen = Vec::new();
    while let Some(code) = l1.load_next() {
        seen.push((*code).clone());
    }
    assert_eq!(seen, vec![vec![0xAAu8], vec![0xBBu8, 0xCC]]);
    assert!(l1.load_next().is_none());

    let mut l2 = factory.loader();
    assert_eq!(*l2.load_next().unwrap(), vec![0xAAu8]);
    assert_eq!(*l2.load_next().unwrap(), vec![0xBBu8, 0xCC]);
    assert!(l2.load_next().is_none());
}
