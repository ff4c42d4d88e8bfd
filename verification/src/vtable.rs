use vstd::prelude::*;

verus! {

/// Number of dispatch slots a swap-surface object exposes.
pub const SWAPCHAIN_METHODS: usize = 18;

/// Number of dispatch slots a device object exposes.
pub const DEVICE_METHODS: usize = 43;

/// Number of dispatch slots an immediate-context object exposes.
pub const CONTEXT_METHODS: usize = 144;

/// Total slots of one extracted table block.
pub const TOTAL_METHODS: usize = SWAPCHAIN_METHODS + DEVICE_METHODS + CONTEXT_METHODS;

/// Appends the first `count` entries of `src` to `dst`.
fn copy_prefix(dst: &mut Vec<usize>, src: &Vec<usize>, count: usize)
    requires
        count <= src@.len(),
    ensures
        final(dst)@ == old(dst)@ + src@.take(count as int),
{
    let mut i: usize = 0;
    while i < count
        invariant
            i <= count,
            count <= src@.len(),
            dst@ == old(dst)@ + src@.take(i as int),
        decreases count - i,
    {
        dst.push(src[i]);
        proof {
            assert(old(dst)@ + src@.take(i as int + 1) =~= (old(dst)@ + src@.take(i as int)).push(
                src@[i as int],
            ));
        }
        i = i + 1;
    }
}

/// A caller-owned snapshot of dispatch-table slots, copied out of live
/// objects into one contiguous block for out-of-band use.
pub struct VTable {
    pub slots: Vec<usize>,
}

impl VTable {
    /// Concatenates the protocol-defined number of dispatch slots of the
    /// swap-surface, the device and the immediate context — in that fixed
    /// order — into one fresh block.  The sources, read by the platform
    /// layer from the live objects, are not modified.
    pub fn get_swapchain(
        swapchain_table: &Vec<usize>,
        device_table: &Vec<usize>,
        context_table: &Vec<usize>,
    ) -> (r: VTable)
        requires
            swapchain_table@.len() >= SWAPCHAIN_METHODS,
            device_table@.len() >= DEVICE_METHODS,
            context_table@.len() >= CONTEXT_METHODS,
        ensures
            r.slots@.len() == TOTAL_METHODS,
            r.slots@ == swapchain_table@.take(SWAPCHAIN_METHODS as int) + device_table@.take(
                DEVICE_METHODS as int,
            ) + context_table@.take(CONTEXT_METHODS as int),
            r.slots@.subrange(0, SWAPCHAIN_METHODS as int) == swapchain_table@.take(
                SWAPCHAIN_METHODS as int,
            ),
            r.slots@.subrange(
                SWAPCHAIN_METHODS as int,
                SWAPCHAIN_METHODS + DEVICE_METHODS,
            ) == device_table@.take(DEVICE_METHODS as int),
            r.slots@.subrange(
                SWAPCHAIN_METHODS + DEVICE_METHODS,
                TOTAL_METHODS as int,
            ) == context_table@.take(CONTEXT_METHODS as int),
    {
        let mut slots: Vec<usize> = Vec::new();
        copy_prefix(&mut slots, swapchain_table, SWAPCHAIN_METHODS);
        copy_prefix(&mut slots, device_table, DEVICE_METHODS);
        copy_prefix(&mut slots, context_table, CONTEXT_METHODS);
        proof {
            let s = swapchain_table@.take(SWAPCHAIN_METHODS as int);
            let d = device_table@.take(DEVICE_METHODS as int);
            let c = context_table@.take(CONTEXT_METHODS as int);
            assert(slots@ =~= s + d + c);
            assert(slots@.subrange(0, SWAPCHAIN_METHODS as int) =~= s);
            assert(slots@.subrange(SWAPCHAIN_METHODS as int, SWAPCHAIN_METHODS + DEVICE_METHODS)
                =~= d);
            assert(slots@.subrange(SWAPCHAIN_METHODS + DEVICE_METHODS, TOTAL_METHODS as int)
                =~= c);
        }
        VTable { slots }
    }
}

} // verus!
