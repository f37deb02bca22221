use easy_mmap::buffer::EasyMmap;
use easy_mmap::builder::EasyMmapBuilder;
use easy_mmap::error::MmapError;
use easy_mmap::options::MapOption;

#[derive(Clone, Copy)]
struct TestStruct {
    v1: i64,
    v2: bool,
}

#[test]
fn map_write_read() {
    let built = EasyMmapBuilder::<u32>::new()
        .capacity(1)
        .options(&[MapOption::MapReadable, MapOption::MapWritable])
        .build()
        .unwrap();
    let mut records = vec![0u32; built.len()];
    let map = &mut EasyMmap::over(&mut records);

    map.put(0, 1).unwrap();

    assert_eq!(map.get(0), Ok(1));
}

#[test]
fn map_iter() {
    let mut records = vec![0u32; 5];
    let map = &mut EasyMmap::over(&mut records);

    for i in 0..5 {
        map.put(i, i as u32).unwrap();
    }

    assert_eq!(map.iter().map(|x| *x).collect::<Vec<_>>(), vec![0, 1, 2, 3, 4]);
}

#[test]
fn map_oob_write() {
    let mut records = vec![0u32; 1];
    let map = &mut EasyMmap::over(&mut records);

    assert_eq!(map.put(1, 1), Err(MmapError::IndexOutOfRange { index: 1, len: 1 }));
    assert_eq!(map.get(0), Ok(0));
}

#[test]
fn map_oob_read() {
    let mut records = vec![0u32; 1];
    let map = &mut EasyMmap::over(&mut records);

    assert_eq!(map.get(1), Err(MmapError::IndexOutOfRange { index: 1, len: 1 }));
}

#[test]
fn test_large_size() {
    let mut records = vec![0u64; 65535];
    let map = &mut EasyMmap::over(&mut records);

    for i in 0..65535 {
        map.put(i, i as u64).unwrap();
    }

    for i in 0..65535 {
        assert_eq!(map.get(i), Ok(i as u64));
    }
}

#[test]
fn test_struct() {
    let length = 100000;
    let mut records = vec![TestStruct { v1: -1, v2: false }; length];
    let map = &mut EasyMmap::over(&mut records);

    for i in 0..length {
        map.put(i, TestStruct { v1: i as i64, v2: i % 2 == 0 }).unwrap();
    }

    for i in 0..length {
        let s = map.get(i).unwrap();
        assert_eq!(s.v1, i as i64);
        assert_eq!(s.v2, i % 2 == 0);
    }
}

#[test]
fn test_iter() {
    let mut records = vec![0i32; 5];
    let mut map = EasyMmap::over(&mut records);

    for i in 0..5 {
        map.put(i, i as i32).unwrap();
    }

    for (i, x) in map.iter().enumerate() {
        assert_eq!(i as i32, *x);
    }
}

#[test]
fn test_iter_mut() {
    let mut records = vec![0i32; 5];
    let mut map = EasyMmap::over(&mut records);

    for (i, x) in map.iter_mut().enumerate() {
        *x = i as i32;
    }

    for (i, x) in map.iter().enumerate() {
        assert_eq!(i as i32, *x);
    }
}

#[test]
fn test_complex_iterator() {
    let mut records = vec![0u32; 5];
    let mut map = EasyMmap::over(&mut records);

    map.iter_mut().enumerate().for_each(|(idx, x)| *x = idx as u32);

    let v = map.iter().map(|x| *x * 3).filter(|x| x % 2 == 0).collect::<Vec<u32>>();

    map.iter_mut().zip(v).for_each(|(x, y)| *x = y);

    assert_eq!(map.iter().map(|x| *x).collect::<Vec<_>>(), vec![0, 6, 12, 3, 4]);
}

#[test]
fn compose_with_update_each() {
    let mut records = vec![0u32; 5];
    let mut map = EasyMmap::over(&mut records);

    map.fill(|i| i as u32);
    let tripled = map.par_iter(|v| v * 3);
    let even: Vec<u32> = tripled.into_iter().filter(|x| x % 2 == 0).collect();
    map.update_each(|i, v| if i < even.len() { even[i] } else { v });

    assert_eq!(map.get_data_as_slice(), &[0, 6, 12, 3, 4]);
}

#[test]
fn update_each_twice() {
    let mut records = vec![0u32; 10];
    let mut map = EasyMmap::over(&mut records);

    map.update_each(|idx, _| idx as u32);
    map.update_each(|_, v| v + 1);

    assert_eq!(map.get_data_as_slice(), &[1, 2, 3, 4, 5, 6, 7, 8, 9, 10]);
}

#[test]
fn get_data_slice() {
    let mut records = vec![0u32; 5];
    let mut map = EasyMmap::over(&mut records);

    map.iter_mut().enumerate().for_each(|(idx, x)| *x = idx as u32);

    let slice = map.get_data_as_slice();

    assert_eq!(slice.len(), 5);
    assert_eq!(Ok(slice[0]), map.get(0));
    assert_eq!(Ok(slice[1]), map.get(1));
    assert_eq!(Ok(slice[2]), map.get(2));
    assert_eq!(Ok(slice[3]), map.get(3));
    assert_eq!(Ok(slice[4]), map.get(4));

    let slice = map.get_data_as_slice_mut();
    assert_eq!(slice.len(), 5);
    slice[0] = 10;

    assert_eq!(map.get(0), Ok(10));
}

#[test]
fn fill_constant() {
    let mut records = vec![0i32; 5];
    let mut map = EasyMmap::over(&mut records);

    map.fill(|_| 1);
    assert_eq!(map.get_data_as_slice(), vec![1, 1, 1, 1, 1]);
}

#[test]
fn fill_large() {
    let mut records = vec![0i32; 100000];
    let mut map = EasyMmap::over(&mut records);

    map.fill(|i| i as i32);
    assert_eq!(map.get_data_as_slice(), (0..100000).collect::<Vec<_>>());
}

#[test]
fn fill_then_iter() {
    let mut records = vec![7u64; 4];
    let mut map = EasyMmap::over(&mut records);

    map.fill(|i| (i * i) as u64);
    assert_eq!(map.iter().copied().collect::<Vec<_>>(), vec![0, 1, 4, 9]);
}

#[test]
fn put_then_get_each_index() {
    let mut records = vec![0i16; 3];
    let mut map = EasyMmap::over(&mut records);

    for i in 0..3 {
        map.put(i, -(i as i16) - 5).unwrap();
        assert_eq!(map.get(i), Ok(-(i as i16) - 5));
    }
    assert_eq!(map.len(), 3);
}

#[test]
fn empty_buffer_refuses_every_index() {
    let mut records: Vec<u8> = Vec::new();
    let mut map = EasyMmap::over(&mut records);

    assert_eq!(map.len(), 0);
    assert_eq!(map.get(0), Err(MmapError::IndexOutOfRange { index: 0, len: 0 }));
    assert_eq!(map.put(0, 1), Err(MmapError::IndexOutOfRange { index: 0, len: 0 }));
    assert_eq!(map.iter().count(), 0);
}

#[test]
fn parallel_iterators() {
    let mut records = vec![0i32; 5];
    let mut map = EasyMmap::over(&mut records);

    map.fill(|i| i as i32);

    assert_eq!(map.par_iter(|x| x), (0..5).collect::<Vec<_>>());
}

#[test]
fn parallel_iterators_mut() {
    let mut records = vec![0i32; 5];
    let mut map = EasyMmap::over(&mut records);

    map.fill(|i| i as i32);

    map.par_iter_mut(|x| x + 1);

    assert_eq!(map.par_iter(|x| x), (1..6).collect::<Vec<_>>());
}

#[test]
fn parallel_matches_sequential() {
    let mut a = (0..1000u64).collect::<Vec<_>>();
    let mut b = a.clone();
    let mut pa = EasyMmap::over(&mut a);
    let mut sb = EasyMmap::over(&mut b);

    pa.par_iter_mut(|x| x * 7 + 1);
    sb.update_each(|_, x| x * 7 + 1);

    assert_eq!(pa.get_data_as_slice(), sb.get_data_as_slice());
    assert_eq!(pa.get(999), Ok(6994));
    assert_eq!(sb.par_iter(|x| x % 10)[3], 2);
}
