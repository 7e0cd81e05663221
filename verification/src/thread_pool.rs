use vstd::prelude::*;

verus! {

#[derive(Clone, Copy, Debug, PartialEq, Eq, Structural)]
pub enum ThreadPoolCreationError {
    NullSize,
}

impl ThreadPoolCreationError {
    pub fn to_string(&self) -> (text: String)
        ensures
            text@ == "Tried to instantiate a thread pool with no worker (size = 0)."@,
    {
        String::from_str("Tried to instantiate a thread pool with no worker (size = 0).")
    }
}

/// The identifiers of the workers of a pool of `size` workers, which are
/// `0..size` in their order. A pool must have a worker.
pub fn worker_ids(size: usize) -> (ids: Result<Vec<usize>, ThreadPoolCreationError>)
    ensures
        match ids {
            Ok(ids) => size > 0 && ids@.len() == size && forall|i: int|
                0 <= i < size ==> ids@[i] == i,
            Err(e) => size == 0 && e == ThreadPoolCreationError::NullSize,
        },
{
    if size == 0 {
        return Err(ThreadPoolCreationError::NullSize);
    }
    let mut ids: Vec<usize> = Vec::new();
    let mut id: usize = 0;
    while id < size
        invariant
            id <= size,
            ids@.len() == id,
            forall|i: int| 0 <= i < id ==> ids@[i] == i,
        decreases size - id,
    {
        ids.push(id);
        id = id + 1;
    }
    Ok(ids)
}

} // verus!
