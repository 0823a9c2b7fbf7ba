use iter_identify_first_last::IteratorIdentifyFirstLastExt;
use iter_identify_first_last::SequenceProducer;
use iter_identify_first_last::VecProducer;
use iter_identify_first_last::collect_all;

#[test]
fn identify_first() {
    assert_eq!(
        collect_all(VecProducer::new(vec![1, 2, 3, 4]).identify_first()).as_slice(),
        &[(1, true), (2, false), (3, false), (4, false)]
    );
}

#[test]
fn identify_last() {
    assert_eq!(
        collect_all(VecProducer::new(vec![1, 2, 3, 4]).identify_last()).as_slice(),
        &[(1, false), (2, false), (3, false), (4, true)]
    );
}

#[test]
fn identify_first_last() {
    assert_eq!(
        collect_all(VecProducer::new(vec![1, 2, 3, 4]).identify_first_last()).as_slice(),
        &[(1, true, false), (2, false, false), (3, false, false), (4, false, true)]
    );
}

#[test]
fn single_element_has_both_flags() {
    assert_eq!(
        collect_all(VecProducer::new(vec![42]).identify_first_last()).as_slice(),
        &[(42, true, true)]
    );
}

#[test]
fn empty_input_yields_nothing() {
    let empty: Vec<i32> = Vec::new();
    assert_eq!(
        collect_all(VecProducer::new(empty.clone()).identify_first()),
        Vec::new()
    );
    assert_eq!(
        collect_all(VecProducer::new(empty.clone()).identify_last()),
        Vec::new()
    );
    assert_eq!(
        collect_all(VecProducer::new(empty.clone()).identify_first_last()),
        Vec::new()
    );
    assert_eq!(VecProducer::new(empty.clone()).identify_first().len(), 0);
    assert_eq!(VecProducer::new(empty.clone()).identify_last().len(), 0);
    assert_eq!(VecProducer::new(empty).identify_first_last().len(), 0);
}

#[test]
fn len_matches_source_for_each_adapter() {
    for n in 0..6usize {
        let items: Vec<usize> = (0..n).collect();
        assert_eq!(VecProducer::new(items.clone()).len(), n);
        assert_eq!(VecProducer::new(items.clone()).identify_first().len(), n);
        assert_eq!(VecProducer::new(items.clone()).identify_last().len(), n);
        assert_eq!(VecProducer::new(items).identify_first_last().len(), n);
    }
}

#[test]
fn len_counts_down_during_iteration() {
    let mut m = VecProducer::new(vec![7, 8, 9]).identify_first_last();
    assert_eq!(m.len(), 3);
    assert_eq!(m.next(), Some((7, true, false)));
    assert_eq!(m.len(), 2);
    assert_eq!(m.next(), Some((8, false, false)));
    assert_eq!(m.len(), 1);
    assert_eq!(m.next(), Some((9, false, true)));
    assert_eq!(m.len(), 0);
}

#[test]
fn exhaustion_is_idempotent() {
    let mut first = VecProducer::new(vec![1]).identify_first();
    assert_eq!(first.next(), Some((1, true)));
    assert_eq!(first.next(), None);
    assert_eq!(first.next(), None);
    assert_eq!(first.next(), None);

    let mut last = VecProducer::new(vec![2]).identify_last();
    assert_eq!(last.next(), Some((2, true)));
    assert_eq!(last.next(), None);
    assert_eq!(last.next(), None);

    let mut both = VecProducer::new(vec![3]).identify_first_last();
    assert_eq!(both.next(), Some((3, true, true)));
    assert_eq!(both.next(), None);
    assert_eq!(both.next(), None);

    let empty: Vec<i32> = Vec::new();
    let mut none = VecProducer::new(empty).identify_first_last();
    assert_eq!(none.next(), None);
    assert_eq!(none.next(), None);
}

#[test]
fn size_hint_brackets_the_count() {
    let producer = VecProducer::new(vec![1, 2, 3, 4]);
    assert_eq!(producer.size_hint(), (4, Some(4)));

    let mut last = producer.identify_last();
    assert_eq!(last.size_hint(), (4, Some(4)));
    assert_eq!(last.next(), Some((1, false)));
    // One element sits in the look-ahead slot, two are still in the source.
    assert_eq!(last.size_hint(), (3, Some(3)));

    let mut both = VecProducer::new(vec![5, 6]).identify_first_last();
    assert_eq!(both.size_hint(), (2, Some(2)));
    assert_eq!(both.next(), Some((5, true, false)));
    assert_eq!(both.size_hint(), (1, Some(1)));
}

#[test]
fn cloned_pipeline_continues_independently() {
    let mut m = VecProducer::new(vec![1, 2, 3]).identify_first_last();
    assert_eq!(m.next(), Some((1, true, false)));
    let mut copy = m.clone();
    assert_eq!(m.next(), Some((2, false, false)));
    assert_eq!(m.next(), Some((3, false, true)));
    assert_eq!(m.next(), None);
    assert_eq!(copy.next(), Some((2, false, false)));
    assert_eq!(copy.next(), Some((3, false, true)));
    assert_eq!(copy.next(), None);
}

#[test]
fn collect_preserves_order_and_elements() {
    let words = vec![String::from("a"), String::from("b"), String::from("c")];
    let marked = collect_all(VecProducer::new(words).identify_first_last());
    assert_eq!(
        marked,
        vec![
            (String::from("a"), true, false),
            (String::from("b"), false, false),
            (String::from("c"), false, true),
        ]
    );
}
