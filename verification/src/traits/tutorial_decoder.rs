use vstd::prelude::*;

use crate::traits::read::{
    namespaced_value, parse_bool, parse_namespaced, parse_u32, parse_u8, yields, DataReaders, Pos,
    Src,
};
use crate::value::{assoc_insert, values_view, Object, Value, ValueView};

verus! {

/// The first `n` tutorial tasks: each a `u8` progress, numbered from 0.
pub open spec fn parse_tasks(src: Src, pos: Pos, n: nat) -> (Seq<ValueView>, Pos)
    decreases n,
{
    if n == 0 {
        (Seq::empty(), pos)
    } else {
        let (tasks, p) = parse_tasks(src, pos, (n - 1) as nat);
        match p {
            Some(_) => {
                let (progress, q) = parse_u8(src, p);
                let task = assoc_insert(Seq::empty(), "task_id"@, ValueView::UInt((n - 1) as u64));
                let task = assoc_insert(task, "progress"@, ValueView::UInt(progress as u64));
                (tasks.push(ValueView::Object(task)), q)
            },
            None => (tasks, None),
        }
    }
}

/// The tutorial: whether it is complete; if not, and a stage is under way, the current
/// stage, whether it is claimed, and the progress of its tasks.
pub open spec fn parse_tutorial(src: Src, pos: Pos) -> (ValueView, Pos) {
    let (complete, p) = parse_bool(src, pos);
    let m = assoc_insert(Seq::empty(), "complete"@, ValueView::Bool(complete));
    if complete {
        (ValueView::Object(m), p)
    } else {
        let (in_progress, p) = parse_bool(src, p);
        if in_progress {
            let (stage, p) = parse_namespaced(src, p);
            let (claimed, p) = parse_bool(src, p);
            let (n, p) = parse_u32(src, p);
            let (tasks, p) = match p {
                Some(_) => parse_tasks(src, p, n as nat),
                None => (Seq::empty(), None),
            };
            let m = assoc_insert(m, "current_stage"@, namespaced_value(stage));
            let m = assoc_insert(m, "current_stage_claimed"@, ValueView::Bool(claimed));
            let m = assoc_insert(m, "tasks"@, ValueView::Array(tasks));
            (ValueView::Object(m), p)
        } else {
            (ValueView::Object(m), p)
        }
    }
}

proof fn lemma_tasks_failure_stays(src: Src, pos: Pos, i: nat, n: nat)
    requires
        i <= n,
        parse_tasks(src, pos, i).1 is None,
    ensures
        parse_tasks(src, pos, n).1 is None,
    decreases n,
{
    if n > i {
        lemma_tasks_failure_stays(src, pos, i, (n - 1) as nat);
    }
}

fn decode_tasks<R: DataReaders + ?Sized>(r: &mut R, num_tasks: u32) -> (res: Option<Vec<Value>>)
    ensures
        final(r)@.src == old(r)@.src,
        match parse_tasks(old(r)@.src, Some(old(r)@.offset), num_tasks as nat) {
            (tasks, Some(p)) => res is Some && values_view(res.unwrap()@) == tasks && final(r)@.offset == p,
            (_, None) => res is None,
        },
{
    let ghost src = r@.src;
    let ghost start = Some(r@.offset);
    let mut tasks: Vec<Value> = Vec::new();
    let mut i: u32 = 0;
    while i < num_tasks
        invariant
            r@.src == src,
            src == old(r)@.src,
            start == Some(old(r)@.offset),
            0 <= i <= num_tasks,
            parse_tasks(src, start, i as nat) == (values_view(tasks@), Some(r@.offset)),
        decreases num_tasks - i,
    {
        let progress = match r.read_uint8() {
            Some(b) => b,
            None => {
                proof {
                    lemma_tasks_failure_stays(src, start, (i + 1) as nat, num_tasks as nat);
                }
                return None;
            },
        };
        let mut task = Object::new();
        task.put("task_id", Value::from_u32(i));
        task.put("progress", Value::from_u8(progress));
        let task = Value::from_object(task);
        proof {
            assert(values_view(tasks@.push(task)) =~= values_view(tasks@).push(task@));
        }
        tasks.push(task);
        i = i + 1;
    }
    Some(tasks)
}

pub trait TutorialDecoder: DataReaders {
    fn decode_tutorial(&mut self) -> (res: Option<Value>)
        ensures
            yields(old(self)@, final(self)@, res, parse_tutorial(old(self)@.src, Some(old(self)@.offset))),
    {
        let mut map = Object::new();
        let complete = self.read_bool()?;
        map.put("complete", Value::Bool(complete));
        if !complete {
            if self.read_bool()? {
                map.put("current_stage", self.read_namespaced_object()?.into_value());
                map.put("current_stage_claimed", Value::Bool(self.read_bool()?));
                let num_tasks = self.read_uint32()?;
                map.put("tasks", Value::from_values(decode_tasks(self, num_tasks)?));
            }
        }
        Some(Value::from_object(map))
    }
}

} // verus!
