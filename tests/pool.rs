use air_bytecode::pool::{ef_constant, f_constant, EfValue};

#[test]
fn interning_twice_returns_same_index() {
    let mut pool: Vec<u32> = Vec::new();
    let first = f_constant(&mut pool, 42);
    let second = f_constant(&mut pool, 42);
    assert_eq!(first, 0);
    assert_eq!(second, 0);
    assert_eq!(pool, vec![42]);
}

#[test]
fn distinct_values_get_insertion_ordered_indices() {
    let mut pool: Vec<u32> = Vec::new();
    let values = [7u32, 3, 2013265920, 0, 11];
    for (k, v) in values.iter().enumerate() {
        assert_eq!(f_constant(&mut pool, *v), k as u32);
    }
    assert_eq!(pool, values.to_vec());
    assert_eq!(f_constant(&mut pool, 2013265920), 2);
    assert_eq!(f_constant(&mut pool, 7), 0);
    assert_eq!(pool.len(), 5);
}

#[test]
fn extension_pool_dedups_on_all_coefficients() {
    let mut pool: Vec<EfValue> = Vec::new();
    let one = EfValue { c0: 1, c1: 0, c2: 0, c3: 0 };
    let x = EfValue { c0: 0, c1: 1, c2: 0, c3: 0 };
    assert_eq!(ef_constant(&mut pool, one), 0);
    assert_eq!(ef_constant(&mut pool, x), 1);
    assert_eq!(ef_constant(&mut pool, one), 0);
    assert_eq!(ef_constant(&mut pool, EfValue { c0: 0, c1: 1, c2: 0, c3: 1 }), 2);
    assert_eq!(pool.len(), 3);
}
