use wasm_wrapper_gen::wire::{record_layout, RecordField};

#[test]
fn the_record_is_pointer_length_capacity() {
    assert_eq!(
        record_layout(),
        [RecordField::Pointer, RecordField::Length, RecordField::Capacity]
    );
}
