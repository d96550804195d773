use chimera::code::{Code, CallOffset, CODE_HEADER_SIZE};
use chimera::module_ctx::FuncIndex;
use chimera::pool::{AllocErr, PagePool, PAGE_SIZE};

#[test]
fn test_alloc() {
    let mut pool: PagePool<Code<()>> = PagePool::new();
    let _code = Code::new(&mut pool, 16, ()).unwrap();
}

#[test]
fn alloc_exact_code_size_view() {
    let mut pool: PagePool<Code<()>> = PagePool::new();
    let id = Code::new(&mut pool, 16, ()).unwrap();
    let bytes = Code::code_bytes(&pool, &id);
    assert_eq!(bytes.len(), 16);
    assert_eq!(bytes, vec![0u8; 16]);
}

#[test]
fn allocations_are_independent() {
    let mut pool: PagePool<Code<()>> = PagePool::new();
    let a = Code::new(&mut pool, 4, ()).unwrap();
    let b = Code::new(&mut pool, 6, ()).unwrap();
    Code::write_code(&mut pool, &a, 0, &vec![1u8, 2, 3, 4]);
    Code::write_code(&mut pool, &b, 0, &vec![9u8, 8, 7, 6, 5, 4]);
    // writing one object never disturbs the other
    assert_eq!(Code::code_bytes(&pool, &a), vec![1u8, 2, 3, 4]);
    assert_eq!(Code::code_bytes(&pool, &b), vec![9u8, 8, 7, 6, 5, 4]);
    Code::write_code(&mut pool, &a, 2, &vec![42u8]);
    assert_eq!(Code::code_bytes(&pool, &a), vec![1u8, 2, 42, 4]);
    assert_eq!(Code::code_bytes(&pool, &b), vec![9u8, 8, 7, 6, 5, 4]);
}

#[test]
fn code_ptr_is_executable_and_past_header() {
    let mut pool: PagePool<Code<()>> = PagePool::new();
    let id = Code::new(&mut pool, 16, ()).unwrap();
    let (page, offset) = Code::code_ptr(&pool, &id);
    assert_eq!(page, 0);
    assert_eq!(offset, CODE_HEADER_SIZE);
    assert!(pool.pages[page].executable);
}

#[test]
fn oversized_allocation_is_out_of_space() {
    let mut pool: PagePool<Code<()>> = PagePool::new();
    // header plus code size passes one page
    let r = Code::new(&mut pool, PAGE_SIZE as u32, ());
    assert!(matches!(r, Err(AllocErr::OutOfSpace)));
    // the failure leaves the pool usable and empty
    assert_eq!(pool.items.len(), 0);
    let ok = Code::new(&mut pool, 8, ());
    assert!(ok.is_ok());
}

#[test]
fn header_fields_and_call_offsets() {
    let mut pool: PagePool<Code<u64>> = PagePool::new();
    let id = Code::new(&mut pool, 8, 123u64).unwrap();
    {
        let code = pool.get(&id);
        assert_eq!(code.code_size, 8);
        assert_eq!(code.keep_alive, 123);
        assert!(code.call_offsets.is_empty());
    }
    let table = vec![
        CallOffset { func_index: FuncIndex::new(3), offset: 2 },
        CallOffset { func_index: FuncIndex::new(5), offset: 6 },
    ];
    Code::set_call_offsets(&mut pool, &id, table.clone());
    let code = pool.get(&id);
    assert_eq!(code.call_offsets, table);
    assert_eq!(code.keep_alive, 123);
    assert_eq!(code.code_size, 8);
}

#[test]
fn many_allocations_share_pages() {
    let mut pool: PagePool<Code<()>> = PagePool::new();
    let mut ids = Vec::new();
    for k in 0..64u8 {
        let id = Code::new(&mut pool, 100, ()).unwrap();
        Code::write_code(&mut pool, &id, 0, &vec![k; 100]);
        ids.push(id);
    }
    for (k, id) in ids.iter().enumerate() {
        assert_eq!(Code::code_bytes(&pool, id), vec![k as u8; 100]);
    }
    // 64 objects of 132 reserved bytes fit in a single 65536-byte page
    assert_eq!(pool.pages.len(), 1);
}
