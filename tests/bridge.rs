use ferrite::any::{AnyVariable, Downcast};
use ferrite::proc_state::{ProcState, ProtocolViolation};
use ferrite::raw::{HostCall, Poll, Variable};
use ferrite::read::ReadVariable;
use ferrite::read_array::ReadArrayVariable;
use ferrite::registry::{RegistryError, VariableStore};
use ferrite::typing::{Element, FerVarDir, FerVarKind, FerVarScalarType, FerVarType};
use ferrite::write::WriteVariable;
use ferrite::write_array::WriteArrayVariable;

fn announce(name: &str, kind: FerVarKind, dir: FerVarDir, ty: FerVarScalarType, max_len: usize) -> AnyVariable {
    let t = FerVarType { kind, dir, scalar_type: ty, array_max_len: max_len };
    AnyVariable::new(Variable::new(name.to_string(), t))
}

/// The host opens a window on a read variable and puts `values` in it.
fn host_publish(var: &mut Variable, values: &[u64]) {
    var.proc_begin().unwrap();
    var.host_store(&values.to_vec());
}

fn read_i32(ao: &mut ReadVariable<i32>, published: i32) -> i32 {
    let mut fut = ao.read();
    assert_eq!(fut.poll(ao), (Poll::Pending, HostCall::RequestProc));
    assert_eq!(ao.raw().proc_state(), ProcState::Requested);
    assert_eq!(fut.poll(ao), (Poll::Pending, HostCall::Nothing));
    host_publish(ao.raw_mut(), &[published.to_bits()]);
    assert_eq!(fut.poll(ao), (Poll::Pending, HostCall::CompleteProc));
    assert_eq!(ao.raw().proc_state(), ProcState::Ready);
    assert_eq!(fut.poll(ao), (Poll::Pending, HostCall::Nothing));
    assert_eq!(ao.raw_mut().proc_end(), Ok(true));
    let (p, call) = fut.poll(ao);
    assert_eq!(call, HostCall::Nothing);
    assert_eq!(ao.raw().proc_state(), ProcState::Idle);
    match p {
        Poll::Ready(v) => v,
        Poll::Pending => panic!("read did not finish"),
    }
}

fn write_i32(ai: &mut WriteVariable<i32>, value: i32) -> i32 {
    let mut fut = ai.write(value);
    assert_eq!(fut.poll(ai), (Poll::Pending, HostCall::RequestProc));
    assert_eq!(ai.raw_mut().proc_begin(), Ok(true));
    assert_eq!(fut.poll(ai), (Poll::Pending, HostCall::CompleteProc));
    let seen = ai.raw().host_load();
    assert_eq!(seen.len(), 1);
    assert_eq!(ai.raw_mut().proc_end(), Ok(true));
    assert_eq!(fut.poll(ai), (Poll::Ready(()), HostCall::Nothing));
    assert_eq!(ai.raw().proc_state(), ProcState::Idle);
    <i32 as Element>::from_bits(seen[0])
}

#[test]
fn scalar_echo() {
    let mut store = VariableStore::new();
    store
        .add_variable(announce("ao", FerVarKind::Scalar, FerVarDir::Read, FerVarScalarType::I32, 0))
        .unwrap();
    store
        .add_variable(announce("ai", FerVarKind::Scalar, FerVarDir::Write, FerVarScalarType::I32, 0))
        .unwrap();
    let mut reg = store.take().unwrap();
    let mut ai = reg.remove(&"ai".to_string()).unwrap().downcast_write::<i32>().ok().unwrap();
    let mut ao = reg.remove(&"ao".to_string()).unwrap().downcast_read::<i32>().ok().unwrap();
    assert!(reg.is_empty());

    let mut out = Vec::new();
    for v in [42, -1, 0] {
        let x = read_i32(&mut ao, v);
        out.push(write_i32(&mut ai, x));
    }
    assert_eq!(out, vec![42, -1, 0]);
    assert!(!ao.raw().is_locked());
    assert!(!ai.raw().is_locked());
}

#[test]
fn array_echo() {
    let aao = announce("aao", FerVarKind::Array, FerVarDir::Read, FerVarScalarType::I32, 32);
    let aai = announce("aai", FerVarKind::Array, FerVarDir::Write, FerVarScalarType::I32, 32);
    let mut aao: ReadArrayVariable<i32> = aao.downcast_read_array::<i32>().ok().unwrap();
    let mut aai: WriteArrayVariable<i32> = aai.downcast_write_array::<i32>().ok().unwrap();
    assert_eq!(aao.max_len(), 32);
    assert_eq!(aai.max_len(), 32);

    let mut buf = vec![0i32; 32];
    let mut rd = aao.read_to_slice();
    assert_eq!(rd.poll(&mut aao, &mut buf), (Poll::Pending, HostCall::RequestProc));
    assert_eq!(aao.raw().proc_state(), ProcState::Requested);
    assert_eq!(rd.poll(&mut aao, &mut buf), (Poll::Pending, HostCall::Nothing));
    let input: Vec<u64> = [1i32, 2, 3].iter().map(|x| x.to_bits()).collect();
    host_publish(aao.raw_mut(), &input);
    assert_eq!(rd.poll(&mut aao, &mut buf), (Poll::Pending, HostCall::CompleteProc));
    assert_eq!(aao.raw_mut().proc_end(), Ok(true));
    assert_eq!(rd.poll(&mut aao, &mut buf), (Poll::Ready(Some(3)), HostCall::Nothing));
    assert_eq!(&buf[..3], &[1, 2, 3]);
    assert!(buf[3..].iter().all(|x| *x == 0));

    let mut wr = aai.write_from_slice(buf[..3].to_vec());
    assert_eq!(wr.poll(&mut aai), (Poll::Pending, HostCall::RequestProc));
    assert_eq!(aai.raw().proc_state(), ProcState::Requested);
    assert_eq!(aai.raw_mut().proc_begin(), Ok(true));
    assert_eq!(wr.poll(&mut aai), (Poll::Pending, HostCall::CompleteProc));
    let out: Vec<i32> = aai.raw().host_load().iter().map(|b| <i32 as Element>::from_bits(*b)).collect();
    assert_eq!(out, vec![1, 2, 3]);
    assert_eq!(aai.raw_mut().proc_end(), Ok(true));
    assert_eq!(wr.poll(&mut aai), (Poll::Ready(()), HostCall::Nothing));
    assert_eq!(aai.raw().proc_state(), ProcState::Idle);
}

#[test]
fn array_in_place_guards() {
    let mut aao = announce("aao", FerVarKind::Array, FerVarDir::Read, FerVarScalarType::U16, 4)
        .downcast_read_array::<u16>()
        .ok()
        .unwrap();
    // The host produces without being asked.
    host_publish(aao.raw_mut(), &[7, 8]);
    let mut fut = aao.read_in_place();
    let guard = match fut.poll(&mut aao) {
        (Poll::Ready(g), HostCall::Nothing) => g,
        _ => panic!("window should be open"),
    };
    assert!(aao.raw().is_locked());
    assert_eq!(guard.len(&aao), 2);
    assert_eq!(guard.as_slice(&aao), vec![7u16, 8]);
    let (mut close, call) = guard.close(&mut aao);
    assert_eq!(call, HostCall::CompleteProc);
    assert!(!aao.raw().is_locked());
    assert_eq!(close.poll(&mut aao), Poll::Pending);
    assert_eq!(aao.raw_mut().proc_end(), Ok(true));
    assert_eq!(close.poll(&mut aao), Poll::Ready(()));
    assert_eq!(aao.raw().proc_state(), ProcState::Idle);

    let mut aai = announce("aai", FerVarKind::Array, FerVarDir::Write, FerVarScalarType::I8, 4)
        .downcast_write_array::<i8>()
        .ok()
        .unwrap();
    let mut fut = aai.init_in_place();
    assert!(matches!(fut.poll(&mut aai), (Poll::Pending, HostCall::RequestProc)));
    assert_eq!(aai.raw_mut().proc_begin(), Ok(true));
    let guard = match fut.poll(&mut aai) {
        (Poll::Ready(g), _) => g,
        _ => panic!("window should be open"),
    };
    guard.set(&mut aai, 0, -5);
    guard.set(&mut aai, 1, 6);
    guard.set_len(&mut aai, 2);
    let (mut done, call) = guard.write(&mut aai);
    assert_eq!(call, HostCall::CompleteProc);
    let out: Vec<i8> = aai.raw().host_load().iter().map(|b| <i8 as Element>::from_bits(*b)).collect();
    assert_eq!(out, vec![-5, 6]);
    assert_eq!(done.poll(&mut aai), Poll::Pending);
    assert_eq!(aai.raw_mut().proc_end(), Ok(true));
    assert_eq!(done.poll(&mut aai), Poll::Ready(()));
}

#[test]
fn read_to_slice_too_short() {
    let mut aao = announce("aao", FerVarKind::Array, FerVarDir::Read, FerVarScalarType::I32, 8)
        .downcast_read_array::<i32>()
        .ok()
        .unwrap();
    let mut dst = vec![9i32; 2];
    let mut rd = aao.read_to_slice();
    assert_eq!(rd.poll(&mut aao, &mut dst).1, HostCall::RequestProc);
    host_publish(aao.raw_mut(), &[1, 2, 3]);
    assert_eq!(rd.poll(&mut aao, &mut dst).1, HostCall::CompleteProc);
    aao.raw_mut().proc_end().unwrap();
    assert_eq!(rd.poll(&mut aao, &mut dst).0, Poll::Ready(None));
    assert_eq!(dst, vec![9, 9]);
    assert_eq!(aao.raw().proc_state(), ProcState::Idle);
    assert!(!aao.raw().is_locked());
}

#[test]
fn type_mismatch() {
    let v = announce("x", FerVarKind::Scalar, FerVarDir::Read, FerVarScalarType::F64, 0);
    let v = v.downcast_read::<i32>().err().unwrap();
    assert_eq!(v.name(), "x");
    let v = v.downcast_read::<i64>().err().unwrap();
    let v = v.downcast_write::<i32>().err().unwrap();
    let v = v.downcast_read_array::<i32>().err().unwrap();
    let v = v.downcast_write_array::<i32>().err().unwrap();
    assert_eq!(v.name(), "x");
}

#[test]
fn downcast_kind_and_direction_must_match() {
    let v = announce("s", FerVarKind::Scalar, FerVarDir::Write, FerVarScalarType::U8, 0);
    let v = v.downcast_read::<u8>().err().unwrap();
    let v = v.downcast_write_array::<u8>().err().unwrap();
    assert!(v.downcast_write::<u8>().is_ok());
    let a = announce("a", FerVarKind::Array, FerVarDir::Read, FerVarScalarType::U64, 3);
    let a = a.downcast_read::<u64>().err().unwrap();
    let a = a.downcast_read_array::<u32>().err().unwrap();
    assert!(a.downcast_read_array::<u64>().is_ok());
}

#[test]
fn cancelled_write_leaves_variable_reusable() {
    let mut ai = announce("ai", FerVarKind::Scalar, FerVarDir::Write, FerVarScalarType::I32, 0)
        .downcast_write::<i32>()
        .ok()
        .unwrap();
    let mut first = ai.write(1);
    assert_eq!(first.poll(&mut ai), (Poll::Pending, HostCall::RequestProc));
    first.cancel(&mut ai);
    // The cycle in flight goes on; nobody is left to wake.
    assert_eq!(ai.raw_mut().proc_begin(), Ok(false));
    let mut second = ai.write(2);
    assert_eq!(second.poll(&mut ai), (Poll::Pending, HostCall::CompleteProc));
    assert_eq!(ai.raw().host_load(), vec![2u64]);
    assert_eq!(ai.raw_mut().proc_end(), Ok(true));
    assert_eq!(second.poll(&mut ai), (Poll::Ready(()), HostCall::Nothing));
    assert_eq!(ai.raw().proc_state(), ProcState::Idle);
}

#[test]
fn read_after_abandoned_cycle_requests_anew() {
    let mut ao = announce("ao", FerVarKind::Scalar, FerVarDir::Read, FerVarScalarType::I32, 0)
        .downcast_read::<i32>()
        .ok()
        .unwrap();
    let mut first = ao.read();
    first.poll(&mut ao);
    host_publish(ao.raw_mut(), &[5]);
    first.poll(&mut ao);
    first.cancel(&mut ao);
    ao.raw_mut().proc_end().unwrap();
    assert_eq!(ao.raw().proc_state(), ProcState::Complete);
    assert_eq!(read_i32(&mut ao, 6), 6);
}

#[test]
fn host_protocol_violations() {
    let mut w = Variable::new(
        "w".to_string(),
        FerVarType {
            kind: FerVarKind::Scalar,
            dir: FerVarDir::Write,
            scalar_type: FerVarScalarType::I32,
            array_max_len: 0,
        },
    );
    assert_eq!(w.proc_begin(), Err(ProtocolViolation::UnrequestedWrite));
    assert_eq!(w.proc_end(), Err(ProtocolViolation::UnexpectedEnd(ProcState::Idle)));
    let mut r = Variable::new(
        "r".to_string(),
        FerVarType {
            kind: FerVarKind::Scalar,
            dir: FerVarDir::Read,
            scalar_type: FerVarScalarType::I32,
            array_max_len: 0,
        },
    );
    assert_eq!(r.proc_begin(), Ok(false));
    assert_eq!(r.proc_begin(), Err(ProtocolViolation::UnexpectedBegin(ProcState::Processing)));
    assert_eq!(r.proc_state(), ProcState::Processing);
}

#[test]
fn registry_names_and_drain() {
    let mut store = VariableStore::new();
    store
        .add_variable(announce("a", FerVarKind::Scalar, FerVarDir::Read, FerVarScalarType::U8, 0))
        .unwrap();
    store
        .add_variable(announce("b", FerVarKind::Array, FerVarDir::Write, FerVarScalarType::U8, 4))
        .unwrap();
    assert_eq!(
        store.add_variable(announce("a", FerVarKind::Scalar, FerVarDir::Write, FerVarScalarType::U8, 0)),
        Err(RegistryError::Duplicate)
    );
    let mut reg = store.take().unwrap();
    assert_eq!(reg.len(), 2);
    assert_eq!(reg.names(), vec!["a".to_string(), "b".to_string()]);
    assert!(reg.contains(&"b".to_string()));
    assert!(reg.remove(&"c".to_string()).is_none());
    assert_eq!(reg.remove(&"a".to_string()).unwrap().name(), "a");
    assert!(!reg.contains(&"a".to_string()));
    assert_eq!(reg.len(), 1);
    assert!(matches!(store.take(), Err(RegistryError::Drained)));
    assert_eq!(
        store.add_variable(announce("c", FerVarKind::Scalar, FerVarDir::Read, FerVarScalarType::U8, 0)),
        Err(RegistryError::Drained)
    );
}

#[test]
fn lock_counts_balance_after_operations() {
    let mut ao = announce("ao", FerVarKind::Scalar, FerVarDir::Read, FerVarScalarType::U32, 0)
        .downcast_read::<u32>()
        .ok()
        .unwrap();
    for v in 0..3u32 {
        let mut fut = ao.read();
        fut.poll(&mut ao);
        assert!(!ao.raw().is_locked());
        host_publish(ao.raw_mut(), &[v as u64]);
        fut.poll(&mut ao);
        assert!(!ao.raw().is_locked());
        ao.raw_mut().proc_end().unwrap();
        assert_eq!(fut.poll(&mut ao).0, Poll::Ready(v));
        assert!(!ao.raw().is_locked());
    }
}

fn take_from_registry<V>(reg: &mut ferrite::registry::Registry, name: &str) -> Option<V>
where
    AnyVariable: Downcast<V>,
{
    reg.remove(&name.to_string())?.downcast().ok()
}

#[test]
fn downcast_through_trait() {
    let mut store = VariableStore::new();
    store
        .add_variable(announce("bi", FerVarKind::Scalar, FerVarDir::Write, FerVarScalarType::U32, 0))
        .unwrap();
    store
        .add_variable(announce("wf", FerVarKind::Array, FerVarDir::Write, FerVarScalarType::I32, 8))
        .unwrap();
    let mut reg = store.take().unwrap();
    let bi: Option<WriteVariable<u32>> = take_from_registry(&mut reg, "bi");
    assert!(bi.is_some());
    let wrong: Option<ReadArrayVariable<i32>> = take_from_registry(&mut reg, "wf");
    assert!(wrong.is_none());
    assert!(reg.is_empty());
}
