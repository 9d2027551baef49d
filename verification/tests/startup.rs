use miros::errors::BootstrapError;
use miros::linux::auxiliary_vector::{
    find_zero_word, read_auxiliary_entries, AuxiliaryValues, AuxiliaryVectorItem,
    AuxiliaryVectorIter, AT_BASE, AT_ENTRY, AT_NULL, AT_PAGE_SIZE, AT_RANDOM,
};
use miros::linux::environment_iterator::EnvironmentIterator;
use miros::linux::environment_variables::{split_environment_entry, EnvironmentIter};
use miros::linux::startup::StartupContext;

fn stack_with(argv: &[u64], envp: &[u64], auxv: &[(u64, u64)]) -> Vec<u64> {
    let mut words = vec![argv.len() as u64];
    words.extend_from_slice(argv);
    words.push(0);
    words.extend_from_slice(envp);
    words.push(0);
    for (tag, value) in auxv {
        words.push(*tag);
        words.push(*value);
    }
    words.push(AT_NULL);
    words.push(0);
    words
}

#[test]
fn decode_accepts_an_aligned_complete_context() {
    let words = stack_with(
        &[0x1111, 0x2222],
        &[0x3333],
        &[(AT_BASE, 0x40_000), (AT_PAGE_SIZE, 4096)],
    );
    let context = StartupContext::decode(&words, 0x7FFF_FFF0).unwrap();
    assert_eq!(context.argument_count, 2);
    assert_eq!(context.argument_pointers, vec![0x1111, 0x2222]);
    assert_eq!(context.environment_pointers, vec![0x3333]);
    assert_eq!(context.auxiliary_entries.len(), 2);
    assert_eq!(context.auxiliary_entries[0].a_type, AT_BASE);
    assert_eq!(context.auxiliary_entries[0].a_val, 0x40_000);
}

#[test]
fn decode_rejects_a_misaligned_stack_pointer() {
    // Every startup decode demands a 16-byte aligned stack pointer.
    let words = stack_with(&[], &[], &[]);
    let err = StartupContext::decode(&words, 0x7FFF_FFF8).unwrap_err();
    assert_eq!(err, BootstrapError::MisalignedStackPointer);
    assert!(StartupContext::decode(&words, 0x7FFF_FFF0).is_ok());
}

#[test]
fn decode_rejects_a_missing_argument_terminator() {
    let mut words = stack_with(&[0x1111], &[], &[]);
    words[2] = 0x9999; // overwrite the null word after argv
    let err = StartupContext::decode(&words, 0).unwrap_err();
    assert_eq!(err, BootstrapError::MissingArgumentTerminator);
}

#[test]
fn decode_rejects_a_truncated_context() {
    let words = vec![5u64, 0x1111];
    let err = StartupContext::decode(&words, 0).unwrap_err();
    assert_eq!(err, BootstrapError::TruncatedStartupContext);
}

#[test]
fn auxiliary_iteration_stops_at_the_null_tag() {
    let words = vec![AT_BASE, 7, AT_ENTRY, 9, AT_NULL, 0, AT_RANDOM, 11];
    let items = read_auxiliary_entries(&words, 0).unwrap();
    assert_eq!(items.len(), 2);
    assert_eq!(items[1], AuxiliaryVectorItem { a_type: AT_ENTRY, a_val: 9 });
}

#[test]
fn auxiliary_iterator_yields_in_order() {
    let items = vec![
        AuxiliaryVectorItem { a_type: AT_BASE, a_val: 1 },
        AuxiliaryVectorItem { a_type: AT_ENTRY, a_val: 2 },
    ];
    let mut iter = AuxiliaryVectorIter::new(items.clone());
    assert_eq!(iter.next(), Some(items[0]));
    assert_eq!(iter.next(), Some(items[1]));
    assert_eq!(iter.next(), None);
}

#[test]
fn auxiliary_vector_is_found_behind_the_environment() {
    // words: env pointers, a zero, then the pairs.
    let words = vec![0x10, 0x20, 0, AT_PAGE_SIZE, 4096, AT_NULL, 0];
    let iter = AuxiliaryVectorIter::from_environment_iter(&words, 0).unwrap();
    let items = iter.into_inner();
    assert_eq!(items, vec![AuxiliaryVectorItem { a_type: AT_PAGE_SIZE, a_val: 4096 }]);
}

#[test]
fn gather_takes_the_last_occurrence_of_a_tag() {
    let items = vec![
        AuxiliaryVectorItem { a_type: AT_BASE, a_val: 1 },
        AuxiliaryVectorItem { a_type: AT_PAGE_SIZE, a_val: 4096 },
        AuxiliaryVectorItem { a_type: AT_BASE, a_val: 2 },
    ];
    let aux = AuxiliaryValues::gather(&items);
    assert_eq!(aux.base, 2);
    assert_eq!(aux.page_size, 4096);
    // An absent tag leaves a null value.
    assert_eq!(aux.random, 0);
    assert_eq!(aux.program_header_pointer, 0);
}

#[test]
fn find_zero_word_reports_the_terminator() {
    let words = vec![3u64, 4, 0, 5];
    assert_eq!(find_zero_word(&words, 0).unwrap(), 2);
    assert_eq!(find_zero_word(&words, 3).unwrap_err(), BootstrapError::TruncatedStartupContext);
}

#[test]
fn environment_entry_splits_at_the_first_equals() {
    let (name, value) = split_environment_entry(&b"PATH=/bin:/usr=bin".to_vec()).unwrap();
    assert_eq!(name, b"PATH".to_vec());
    assert_eq!(value, b"/bin:/usr=bin".to_vec());
    let (name, value) = split_environment_entry(&b"EMPTY=".to_vec()).unwrap();
    assert_eq!(name, b"EMPTY".to_vec());
    assert_eq!(value, Vec::<u8>::new());
    assert!(split_environment_entry(&b"MALFORMED".to_vec()).is_none());
}

#[test]
fn environment_iter_stops_at_a_malformed_entry() {
    let strings = vec![b"A=1".to_vec(), b"BROKEN".to_vec(), b"B=2".to_vec()];
    let mut iter = EnvironmentIter::new(strings);
    assert_eq!(iter.next(), Some((b"A".to_vec(), b"1".to_vec())));
    // The malformed string ends iteration silently, as a release build
    // of the runtime does.
    assert_eq!(iter.next(), None);
    assert_eq!(iter.next(), None);
}

#[test]
fn environment_iterator_yields_whole_strings() {
    let strings = vec![b"A=1".to_vec(), b"B=2".to_vec()];
    let mut iter = EnvironmentIterator::new(strings.clone());
    assert_eq!(iter.next(), Some(b"A=1".to_vec()));
    assert_eq!(iter.next(), Some(b"B=2".to_vec()));
    assert_eq!(iter.next(), None);
    let back = EnvironmentIterator::new(strings.clone()).into_inner();
    assert_eq!(back, strings);
}
