use chimera::code::Code;
use chimera::job::{Job, Mode, Priority};
use chimera::module_ctx::{FuncIndex, ModuleInfo, SharedFunctionBody};
use chimera::pool::{PagePool, PAGE_SIZE};
use chimera::tier::{Anchor, HighTier, Opt};
use chimera::TieredCompiler;
use chimera::Chimera;
use futures::executor::block_on;
use std::sync::Arc;

fn info() -> Arc<ModuleInfo> {
    Arc::new(ModuleInfo { func_count: 16 })
}

fn body(bytes: &[u8]) -> SharedFunctionBody {
    Arc::new(bytes.to_vec())
}

#[test]
fn create() {
    let mut chimera = Chimera::new();
    let mut pool: PagePool<Code<Anchor>> = PagePool::new();
    let func_index = FuncIndex::new(0);

    let future_code = Job::create(
        &mut chimera,
        info(),
        body(&[0xc3]),
        func_index,
        Priority::Hot,
        Mode::Baseline,
    );

    assert_eq!(chimera.run_next(&mut pool), Some(0));
    // the future resolves exactly once; the baseline tier is an unwired
    // extension point, so it resolves to an error, not a crash
    let result = block_on(future_code).unwrap();
    let message = match result {
        Err(m) => m,
        Ok(_) => panic!("the baseline tier must not succeed"),
    };
    assert_eq!(message, "baseline backend: function 0: not implemented");
}

#[test]
fn priority_order_is_hot_warm_cold_fifo() {
    let mut chimera = Chimera::new();
    let mut pool: PagePool<Code<Anchor>> = PagePool::new();
    let specs = [
        (Priority::Cold, 0u32),
        (Priority::Hot, 1),
        (Priority::Cold, 2),
        (Priority::Warm, 3),
        (Priority::Hot, 4),
    ];
    let mut receivers: Vec<_> = specs
        .iter()
        .map(|(p, f)| {
            Job::create(
                &mut chimera,
                info(),
                body(&[*f as u8]),
                FuncIndex::new(*f),
                *p,
                Mode::High(Opt::O0),
            )
        })
        .collect();

    // drain the queue one worker step at a time, recording which job's
    // future resolved after each step
    let mut order = Vec::new();
    while chimera.run_next(&mut pool).is_some() {
        for (f, rx) in receivers.iter_mut().enumerate() {
            if let Ok(Some(result)) = rx.try_recv() {
                assert!(result.is_ok());
                order.push(f as u32);
            }
        }
    }
    // hot jobs first in arrival order, then warm, then cold
    assert_eq!(order, vec![1, 4, 3, 0, 2]);
    assert_eq!(chimera.pending(), 0);
}

#[test]
fn dropped_receiver_is_harmless() {
    let mut chimera = Chimera::new();
    let mut pool: PagePool<Code<Anchor>> = PagePool::new();
    let rx = Job::create(
        &mut chimera,
        info(),
        body(&[1, 2, 3]),
        FuncIndex::new(7),
        Priority::Warm,
        Mode::High(Opt::O1),
    );
    drop(rx);
    // the worker still runs the compile to completion; its send is a no-op
    assert_eq!(chimera.run_next(&mut pool), Some(0));
    assert_eq!(chimera.pending(), 0);
    // the pool is not corrupted: the job's code object was still placed,
    // and new work proceeds normally
    assert_eq!(pool.items.len(), 1);
    let rx2 = Job::create(
        &mut chimera,
        info(),
        body(&[9]),
        FuncIndex::new(8),
        Priority::Hot,
        Mode::High(Opt::O0),
    );
    chimera.run_next(&mut pool);
    assert!(block_on(rx2).unwrap().is_ok());
}

#[test]
fn failing_job_does_not_affect_others() {
    let mut chimera = Chimera::new();
    let mut pool: PagePool<Code<Anchor>> = PagePool::new();
    let rx_bad = Job::create(
        &mut chimera,
        info(),
        body(&[5, 5]),
        FuncIndex::new(2),
        Priority::Hot,
        Mode::Medium,
    );
    let rx_good = Job::create(
        &mut chimera,
        info(),
        body(&[0x90, 0xc3]),
        FuncIndex::new(3),
        Priority::Cold,
        Mode::High(Opt::O2),
    );
    assert_eq!(chimera.run_next(&mut pool), Some(0));
    assert_eq!(chimera.run_next(&mut pool), Some(0));
    let bad = block_on(rx_bad).unwrap();
    let message = match bad {
        Err(m) => m,
        Ok(_) => panic!("the medium tier must not succeed"),
    };
    assert_eq!(message, "medium backend: function 2: not implemented");
    let good = block_on(rx_good).unwrap().unwrap();
    assert_eq!(Code::code_bytes(&pool, &good), vec![0x90, 0xc3]);
    assert_eq!(pool.items.len(), 1);
}

#[test]
fn oversized_body_reports_allocation_failure() {
    let mut chimera = Chimera::new();
    let mut pool: PagePool<Code<Anchor>> = PagePool::new();
    let rx = Job::create(
        &mut chimera,
        info(),
        Arc::new(vec![0u8; PAGE_SIZE]),
        FuncIndex::new(11),
        Priority::Hot,
        Mode::High(Opt::O0),
    );
    chimera.run_next(&mut pool);
    let result = block_on(rx).unwrap();
    let message = match result {
        Err(m) => m,
        Ok(_) => panic!("an oversized body must not be placed"),
    };
    assert_eq!(message, "high backend: function 11: allocation failed: out of space");
    assert_eq!(pool.items.len(), 0);
}

#[test]
fn end_to_end_hot_high_tier() {
    let mut chimera = Chimera::new();
    let mut pool: PagePool<Code<Anchor>> = PagePool::new();
    // a trivial function body, submitted hot at the highest tier with
    // optimization level none
    let trivial = [0xb8u8, 0x2a, 0x00, 0x00, 0x00, 0xc3];
    let rx = Job::create(
        &mut chimera,
        info(),
        body(&trivial),
        FuncIndex::new(1),
        Priority::Hot,
        Mode::High(Opt::O0),
    );
    assert_eq!(chimera.run_next(&mut pool), Some(0));
    let handle = block_on(rx).unwrap().unwrap();
    let (page, offset) = Code::code_ptr(&pool, &handle);
    assert!(pool.pages[page].executable);
    assert!(offset > 0);
    let code = pool.get(&handle);
    assert_eq!(code.code_size as usize, trivial.len());
    assert!(code.call_offsets.is_empty());
    assert_eq!(code.keep_alive.body.as_ref(), &trivial.to_vec());
    assert_eq!(Code::code_bytes(&pool, &handle), trivial.to_vec());
}

#[test]
fn high_tier_compiles_through_the_trait() {
    let mut pool: PagePool<Code<Anchor>> = PagePool::new();
    let tier = HighTier { opt: Opt::O1 };
    let id = tier
        .compile(&mut pool, &info(), FuncIndex::new(6), &body(&[0xcc, 0xc3]))
        .ok()
        .expect("the wired tier must place a fitting body");
    assert_eq!(Code::code_bytes(&pool, &id), vec![0xcc, 0xc3]);
    assert!(pool.get(&id).call_offsets.is_empty());
}

#[test]
fn job_reports_its_priority() {
    let (sender, _receiver) = futures::channel::oneshot::channel();
    let job = chimera::job::Job {
        priority: Priority::Warm,
        mode: Mode::Baseline,
        func_index: FuncIndex::new(9),
        func_body: body(&[1]),
        info: info(),
        sender,
    };
    assert_eq!(job.priority(), Priority::Warm);
}

#[test]
fn decimal_rendering_in_descriptions() {
    assert_eq!(chimera::text::u32_to_dec(0), "0");
    assert_eq!(chimera::text::u32_to_dec(7), "7");
    assert_eq!(chimera::text::u32_to_dec(42), "42");
    assert_eq!(chimera::text::u32_to_dec(1234567890), "1234567890");
    assert_eq!(chimera::text::u32_to_dec(u32::MAX), "4294967295");
}
