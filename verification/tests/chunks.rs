use bytecode::chunk::{Chunk, DynamicArray, OP_CONSTANT, OP_RETURN};

#[test]
fn opcodes_have_their_values() {
    assert_eq!(OP_RETURN, 1);
    assert_eq!(OP_CONSTANT, 2);
}

#[test]
fn new_chunk_is_empty() {
    let chunk = Chunk::new();
    assert_eq!(chunk.code_chunk.get_count(), 0);
    assert_eq!(chunk.code_chunk.get_capacity(), 0);
    assert_eq!(chunk.code_chunk.get_storage(), None);
    assert_eq!(chunk.constants.get_count(), 0);
    assert_eq!(chunk.constants.get_capacity(), 0);
    assert_eq!(chunk.constants.get_storage(), None);
}

#[test]
fn write_chunk_appends_to_the_instruction_stream_only() {
    let mut chunk = Chunk::new();
    chunk.write_chunk(OP_RETURN);
    chunk.write_chunk(200);
    assert_eq!(chunk.code_chunk.get_count(), 2);
    assert_eq!(chunk.code_chunk.get_storage(), Some(vec![1, 200, 0, 0, 0, 0, 0, 0]));
    assert_eq!(chunk.constants.get_count(), 0);
    assert_eq!(chunk.constants.get_storage(), None);
}

#[test]
fn add_constant_returns_the_index_of_the_new_constant() {
    let mut chunk = Chunk::new();
    for expected in 0..20 {
        let index = chunk.add_constant(expected as u64 + 100);
        assert_eq!(index, expected);
        assert_eq!(index, chunk.constants.get_count() - 1);
    }
    assert_eq!(chunk.code_chunk.get_count(), 0);
    assert_eq!(chunk.code_chunk.get_storage(), None);
}

#[test]
fn interned_constant_reads_back_bit_for_bit() {
    let values = [
        1.2f64,
        0.0,
        -0.0,
        f64::MIN_POSITIVE,
        f64::MAX,
        f64::INFINITY,
        f64::NEG_INFINITY,
        f64::NAN,
        f64::from_bits(0x7ff8_0000_0000_1234),
        5e-324,
    ];
    let mut chunk = Chunk::new();
    let mut indices = Vec::new();
    for value in values {
        indices.push(chunk.add_constant(value.to_bits()));
    }
    let pool = chunk.constants.get_storage().unwrap();
    for (value, index) in values.iter().zip(indices) {
        assert_eq!(pool[index as usize], value.to_bits());
        assert_eq!(f64::from_bits(pool[index as usize]).to_bits(), value.to_bits());
    }
}

#[test]
fn interned_constant_keeps_its_index_while_the_pool_grows() {
    let mut chunk = Chunk::new();
    let first = chunk.add_constant(1.2f64.to_bits());
    for i in 0..100u64 {
        chunk.add_constant(i);
    }
    let pool = chunk.constants.get_storage().unwrap();
    assert_eq!(first, 0);
    assert_eq!(f64::from_bits(pool[first as usize]), 1.2);
}

#[test]
fn pool_takes_more_constants_than_an_operand_byte_can_name() {
    let mut chunk = Chunk::new();
    let mut last = -1;
    for i in 0..300u64 {
        last = chunk.add_constant(i);
    }
    assert_eq!(last, 299);
    assert_eq!(chunk.constants.get_count(), 300);
    assert_eq!(chunk.constants.get_capacity(), 512);
}

#[test]
fn free_chunk_resets_both_buffers() {
    let mut chunk = Chunk::new();
    chunk.add_constant(3);
    chunk.write_chunk(OP_CONSTANT);
    chunk.write_chunk(0);
    chunk.free_chunk();
    assert_eq!(chunk.code_chunk.get_count(), 0);
    assert_eq!(chunk.code_chunk.get_capacity(), 0);
    assert_eq!(chunk.code_chunk.get_storage(), None);
    assert_eq!(chunk.constants.get_count(), 0);
    assert_eq!(chunk.constants.get_capacity(), 0);
    assert_eq!(chunk.constants.get_storage(), None);
}

#[test]
fn chunk_is_reusable_after_free() {
    let mut chunk = Chunk::new();
    chunk.add_constant(3);
    chunk.write_chunk(OP_RETURN);
    chunk.free_chunk();
    assert_eq!(chunk.add_constant(4), 0);
    chunk.write_chunk(OP_CONSTANT);
    assert_eq!(chunk.code_chunk.get_storage(), Some(vec![2, 0, 0, 0, 0, 0, 0, 0]));
    assert_eq!(chunk.constants.get_storage(), Some(vec![4, 0, 0, 0, 0, 0, 0, 0]));
}

#[test]
fn init_chunk_resets_both_buffers() {
    let mut chunk = Chunk::new();
    chunk.add_constant(3);
    chunk.write_chunk(OP_RETURN);
    chunk.init_chunk();
    assert_eq!(chunk.code_chunk.get_count(), 0);
    assert_eq!(chunk.code_chunk.get_storage(), None);
    assert_eq!(chunk.constants.get_count(), 0);
    assert_eq!(chunk.constants.get_storage(), None);
}
