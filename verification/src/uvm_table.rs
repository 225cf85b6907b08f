use vstd::prelude::*;
use crate::uvm_fields::{FieldDesc, FieldKind, ElemKind};

verus! {

pub const UVM_INITIALIZE: u64 = 0x30000001;
pub const UVM_DEINITIALIZE: u64 = 0x30000002;
pub const UVM_RESERVE_VA: u64 = 1;
pub const UVM_RELEASE_VA: u64 = 2;
pub const UVM_REGION_COMMIT: u64 = 3;
pub const UVM_REGION_DECOMMIT: u64 = 4;
pub const UVM_REGION_SET_STREAM: u64 = 5;
pub const UVM_SET_STREAM_RUNNING: u64 = 6;
pub const UVM_SET_STREAM_STOPPED: u64 = 7;
pub const UVM_ADD_SESSION: u64 = 10;
pub const UVM_ENABLE_COUNTERS: u64 = 12;
pub const UVM_MAP_COUNTER: u64 = 13;
pub const UVM_CREATE_EVENT_QUEUE: u64 = 14;
pub const UVM_REMOVE_EVENT_QUEUE: u64 = 15;
pub const UVM_MAP_EVENT_QUEUE: u64 = 16;
pub const UVM_EVENT_CTRL: u64 = 17;
pub const UVM_GET_GPU_UUID_TABLE: u64 = 20;
pub const UVM_REGION_SET_BACKING: u64 = 21;
pub const UVM_REGION_UNSET_BACKING: u64 = 22;
pub const UVM_CREATE_RANGE_GROUP: u64 = 23;
pub const UVM_DESTROY_RANGE_GROUP: u64 = 24;
pub const UVM_REGISTER_GPU_VASPACE: u64 = 25;
pub const UVM_UNREGISTER_GPU_VASPACE: u64 = 26;
pub const UVM_REGISTER_CHANNEL: u64 = 27;
pub const UVM_UNREGISTER_CHANNEL: u64 = 28;
pub const UVM_ENABLE_PEER_ACCESS: u64 = 29;
pub const UVM_DISABLE_PEER_ACCESS: u64 = 30;
pub const UVM_SET_RANGE_GROUP: u64 = 31;
pub const UVM_MAP_EXTERNAL_ALLOCATION: u64 = 33;
pub const UVM_FREE: u64 = 34;
pub const UVM_MEM_MAP: u64 = 35;
pub const UVM_REGISTER_GPU: u64 = 37;
pub const UVM_UNREGISTER_GPU: u64 = 38;
pub const UVM_PAGEABLE_MEM_ACCESS: u64 = 39;
pub const UVM_PREVENT_MIGRATION_RANGE_GROUPS: u64 = 40;
pub const UVM_ALLOW_MIGRATION_RANGE_GROUPS: u64 = 41;
pub const UVM_SET_PREFERRED_LOCATION: u64 = 42;
pub const UVM_UNSET_PREFERRED_LOCATION: u64 = 43;
pub const UVM_ENABLE_READ_DUPLICATION: u64 = 44;
pub const UVM_DISABLE_READ_DUPLICATION: u64 = 45;
pub const UVM_SET_ACCESSED_BY: u64 = 46;
pub const UVM_UNSET_ACCESSED_BY: u64 = 47;
pub const UVM_MIGRATE: u64 = 51;
pub const UVM_MIGRATE_RANGE_GROUP: u64 = 53;
pub const UVM_ENABLE_SYSTEM_WIDE_ATOMICS: u64 = 54;
pub const UVM_DISABLE_SYSTEM_WIDE_ATOMICS: u64 = 55;
pub const UVM_TOOLS_INIT_EVENT_TRACKER: u64 = 56;
pub const UVM_TOOLS_SET_NOTIFICATION_THRESHOLD: u64 = 57;
pub const UVM_TOOLS_EVENT_QUEUE_ENABLE_EVENTS: u64 = 58;
pub const UVM_TOOLS_EVENT_QUEUE_DISABLE_EVENTS: u64 = 59;
pub const UVM_TOOLS_ENABLE_COUNTERS: u64 = 60;
pub const UVM_TOOLS_DISABLE_COUNTERS: u64 = 61;
pub const UVM_TOOLS_READ_PROCESS_MEMORY: u64 = 62;
pub const UVM_TOOLS_WRITE_PROCESS_MEMORY: u64 = 63;
pub const UVM_TOOLS_GET_PROCESSOR_UUID_TABLE: u64 = 64;
pub const UVM_MAP_DYNAMIC_PARALLELISM_REGION: u64 = 65;
pub const UVM_UNMAP_EXTERNAL: u64 = 66;
pub const UVM_TOOLS_FLUSH_EVENTS: u64 = 67;
pub const UVM_ALLOC_SEMAPHORE_POOL: u64 = 68;
pub const UVM_CLEAN_UP_ZOMBIE_RESOURCES: u64 = 69;
pub const UVM_PAGEABLE_MEM_ACCESS_ON_GPU: u64 = 70;
pub const UVM_POPULATE_PAGEABLE: u64 = 71;
pub const UVM_VALIDATE_VA_RANGE: u64 = 72;
pub const UVM_CREATE_EXTERNAL_RANGE: u64 = 73;
pub const UVM_MAP_EXTERNAL_SPARSE: u64 = 74;
pub const UVM_MM_INITIALIZE: u64 = 75;
pub const UVM_TOOLS_INIT_EVENT_TRACKER_V2: u64 = 76;
pub const UVM_TOOLS_GET_PROCESSOR_UUID_TABLE_V2: u64 = 77;
pub const UVM_ALLOC_DEVICE_P2P: u64 = 78;
pub const UVM_CLEAR_ALL_ACCESS_COUNTERS: u64 = 79;
pub const UVM_DISCARD: u64 = 80;
pub const UVM_IS_8_SUPPORTED: u64 = 0x7ff;

/// The command number with its upper 32 bits cleared.
pub open spec fn normalized(cmd: u64) -> u64 {
    (cmd % 0x1_0000_0000) as u64
}

/// The names of the UVM commands, in the order of `uvm_cmd_codes()`, then `UNKNOWN`.
pub open spec fn uvm_cmd_names() -> Seq<Seq<char>> {
    seq![
        "UVM_INITIALIZE"@,
        "UVM_DEINITIALIZE"@,
        "UVM_RESERVE_VA"@,
        "UVM_RELEASE_VA"@,
        "UVM_REGION_COMMIT"@,
        "UVM_REGION_DECOMMIT"@,
        "UVM_REGION_SET_STREAM"@,
        "UVM_SET_STREAM_RUNNING"@,
        "UVM_SET_STREAM_STOPPED"@,
        "UVM_ADD_SESSION"@,
        "UVM_ENABLE_COUNTERS"@,
        "UVM_MAP_COUNTER"@,
        "UVM_CREATE_EVENT_QUEUE"@,
        "UVM_REMOVE_EVENT_QUEUE"@,
        "UVM_MAP_EVENT_QUEUE"@,
        "UVM_EVENT_CTRL"@,
        "UVM_GET_GPU_UUID_TABLE"@,
        "UVM_REGION_SET_BACKING"@,
        "UVM_REGION_UNSET_BACKING"@,
        "UVM_CREATE_RANGE_GROUP"@,
        "UVM_DESTROY_RANGE_GROUP"@,
        "UVM_REGISTER_GPU_VASPACE"@,
        "UVM_UNREGISTER_GPU_VASPACE"@,
        "UVM_REGISTER_CHANNEL"@,
        "UVM_UNREGISTER_CHANNEL"@,
        "UVM_ENABLE_PEER_ACCESS"@,
        "UVM_DISABLE_PEER_ACCESS"@,
        "UVM_SET_RANGE_GROUP"@,
        "UVM_MAP_EXTERNAL_ALLOCATION"@,
        "UVM_FREE"@,
        "UVM_MEM_MAP"@,
        "UVM_REGISTER_GPU"@,
        "UVM_UNREGISTER_GPU"@,
        "UVM_PAGEABLE_MEM_ACCESS"@,
        "UVM_PREVENT_MIGRATION_RANGE_GROUPS"@,
        "UVM_ALLOW_MIGRATION_RANGE_GROUPS"@,
        "UVM_SET_PREFERRED_LOCATION"@,
        "UVM_UNSET_PREFERRED_LOCATION"@,
        "UVM_ENABLE_READ_DUPLICATION"@,
        "UVM_DISABLE_READ_DUPLICATION"@,
        "UVM_SET_ACCESSED_BY"@,
        "UVM_UNSET_ACCESSED_BY"@,
        "UVM_MIGRATE"@,
        "UVM_MIGRATE_RANGE_GROUP"@,
        "UVM_ENABLE_SYSTEM_WIDE_ATOMICS"@,
        "UVM_DISABLE_SYSTEM_WIDE_ATOMICS"@,
        "UVM_TOOLS_INIT_EVENT_TRACKER"@,
        "UVM_TOOLS_SET_NOTIFICATION_THRESHOLD"@,
        "UVM_TOOLS_EVENT_QUEUE_ENABLE_EVENTS"@,
        "UVM_TOOLS_EVENT_QUEUE_DISABLE_EVENTS"@,
        "UVM_TOOLS_ENABLE_COUNTERS"@,
        "UVM_TOOLS_DISABLE_COUNTERS"@,
        "UVM_TOOLS_READ_PROCESS_MEMORY"@,
        "UVM_TOOLS_WRITE_PROCESS_MEMORY"@,
        "UVM_TOOLS_GET_PROCESSOR_UUID_TABLE"@,
        "UVM_MAP_DYNAMIC_PARALLELISM_REGION"@,
        "UVM_UNMAP_EXTERNAL"@,
        "UVM_TOOLS_FLUSH_EVENTS"@,
        "UVM_ALLOC_SEMAPHORE_POOL"@,
        "UVM_CLEAN_UP_ZOMBIE_RESOURCES"@,
        "UVM_PAGEABLE_MEM_ACCESS_ON_GPU"@,
        "UVM_POPULATE_PAGEABLE"@,
        "UVM_VALIDATE_VA_RANGE"@,
        "UVM_CREATE_EXTERNAL_RANGE"@,
        "UVM_MAP_EXTERNAL_SPARSE"@,
        "UVM_MM_INITIALIZE"@,
        "UVM_TOOLS_INIT_EVENT_TRACKER_V2"@,
        "UVM_TOOLS_GET_PROCESSOR_UUID_TABLE_V2"@,
        "UVM_ALLOC_DEVICE_P2P"@,
        "UVM_CLEAR_ALL_ACCESS_COUNTERS"@,
        "UVM_DISCARD"@,
        "UVM_IS_8_SUPPORTED"@,
        "UNKNOWN"@,
    ]
}

/// The numbers of the UVM commands that have a name.
pub open spec fn uvm_cmd_codes() -> Seq<u64> {
    seq![
        UVM_INITIALIZE,
        UVM_DEINITIALIZE,
        UVM_RESERVE_VA,
        UVM_RELEASE_VA,
        UVM_REGION_COMMIT,
        UVM_REGION_DECOMMIT,
        UVM_REGION_SET_STREAM,
        UVM_SET_STREAM_RUNNING,
        UVM_SET_STREAM_STOPPED,
        UVM_ADD_SESSION,
        UVM_ENABLE_COUNTERS,
        UVM_MAP_COUNTER,
        UVM_CREATE_EVENT_QUEUE,
        UVM_REMOVE_EVENT_QUEUE,
        UVM_MAP_EVENT_QUEUE,
        UVM_EVENT_CTRL,
        UVM_GET_GPU_UUID_TABLE,
        UVM_REGION_SET_BACKING,
        UVM_REGION_UNSET_BACKING,
        UVM_CREATE_RANGE_GROUP,
        UVM_DESTROY_RANGE_GROUP,
        UVM_REGISTER_GPU_VASPACE,
        UVM_UNREGISTER_GPU_VASPACE,
        UVM_REGISTER_CHANNEL,
        UVM_UNREGISTER_CHANNEL,
        UVM_ENABLE_PEER_ACCESS,
        UVM_DISABLE_PEER_ACCESS,
        UVM_SET_RANGE_GROUP,
        UVM_MAP_EXTERNAL_ALLOCATION,
        UVM_FREE,
        UVM_MEM_MAP,
        UVM_REGISTER_GPU,
        UVM_UNREGISTER_GPU,
        UVM_PAGEABLE_MEM_ACCESS,
        UVM_PREVENT_MIGRATION_RANGE_GROUPS,
        UVM_ALLOW_MIGRATION_RANGE_GROUPS,
        UVM_SET_PREFERRED_LOCATION,
        UVM_UNSET_PREFERRED_LOCATION,
        UVM_ENABLE_READ_DUPLICATION,
        UVM_DISABLE_READ_DUPLICATION,
        UVM_SET_ACCESSED_BY,
        UVM_UNSET_ACCESSED_BY,
        UVM_MIGRATE,
        UVM_MIGRATE_RANGE_GROUP,
        UVM_ENABLE_SYSTEM_WIDE_ATOMICS,
        UVM_DISABLE_SYSTEM_WIDE_ATOMICS,
        UVM_TOOLS_INIT_EVENT_TRACKER,
        UVM_TOOLS_SET_NOTIFICATION_THRESHOLD,
        UVM_TOOLS_EVENT_QUEUE_ENABLE_EVENTS,
        UVM_TOOLS_EVENT_QUEUE_DISABLE_EVENTS,
        UVM_TOOLS_ENABLE_COUNTERS,
        UVM_TOOLS_DISABLE_COUNTERS,
        UVM_TOOLS_READ_PROCESS_MEMORY,
        UVM_TOOLS_WRITE_PROCESS_MEMORY,
        UVM_TOOLS_GET_PROCESSOR_UUID_TABLE,
        UVM_MAP_DYNAMIC_PARALLELISM_REGION,
        UVM_UNMAP_EXTERNAL,
        UVM_TOOLS_FLUSH_EVENTS,
        UVM_ALLOC_SEMAPHORE_POOL,
        UVM_CLEAN_UP_ZOMBIE_RESOURCES,
        UVM_PAGEABLE_MEM_ACCESS_ON_GPU,
        UVM_POPULATE_PAGEABLE,
        UVM_VALIDATE_VA_RANGE,
        UVM_CREATE_EXTERNAL_RANGE,
        UVM_MAP_EXTERNAL_SPARSE,
        UVM_MM_INITIALIZE,
        UVM_TOOLS_INIT_EVENT_TRACKER_V2,
        UVM_TOOLS_GET_PROCESSOR_UUID_TABLE_V2,
        UVM_ALLOC_DEVICE_P2P,
        UVM_CLEAR_ALL_ACCESS_COUNTERS,
        UVM_DISCARD,
        UVM_IS_8_SUPPORTED,
    ]
}

/// Where the name of `cmd` stands in `uvm_cmd_names()`.
pub open spec fn name_index(cmd: u64) -> int {
    match normalized(cmd) {
        UVM_INITIALIZE => 0,
        UVM_DEINITIALIZE => 1,
        UVM_RESERVE_VA => 2,
        UVM_RELEASE_VA => 3,
        UVM_REGION_COMMIT => 4,
        UVM_REGION_DECOMMIT => 5,
        UVM_REGION_SET_STREAM => 6,
        UVM_SET_STREAM_RUNNING => 7,
        UVM_SET_STREAM_STOPPED => 8,
        UVM_ADD_SESSION => 9,
        UVM_ENABLE_COUNTERS => 10,
        UVM_MAP_COUNTER => 11,
        UVM_CREATE_EVENT_QUEUE => 12,
        UVM_REMOVE_EVENT_QUEUE => 13,
        UVM_MAP_EVENT_QUEUE => 14,
        UVM_EVENT_CTRL => 15,
        UVM_GET_GPU_UUID_TABLE => 16,
        UVM_REGION_SET_BACKING => 17,
        UVM_REGION_UNSET_BACKING => 18,
        UVM_CREATE_RANGE_GROUP => 19,
        UVM_DESTROY_RANGE_GROUP => 20,
        UVM_REGISTER_GPU_VASPACE => 21,
        UVM_UNREGISTER_GPU_VASPACE => 22,
        UVM_REGISTER_CHANNEL => 23,
        UVM_UNREGISTER_CHANNEL => 24,
        UVM_ENABLE_PEER_ACCESS => 25,
        UVM_DISABLE_PEER_ACCESS => 26,
        UVM_SET_RANGE_GROUP => 27,
        UVM_MAP_EXTERNAL_ALLOCATION => 28,
        UVM_FREE => 29,
        UVM_MEM_MAP => 30,
        UVM_REGISTER_GPU => 31,
        UVM_UNREGISTER_GPU => 32,
        UVM_PAGEABLE_MEM_ACCESS => 33,
        UVM_PREVENT_MIGRATION_RANGE_GROUPS => 34,
        UVM_ALLOW_MIGRATION_RANGE_GROUPS => 35,
        UVM_SET_PREFERRED_LOCATION => 36,
        UVM_UNSET_PREFERRED_LOCATION => 37,
        UVM_ENABLE_READ_DUPLICATION => 38,
        UVM_DISABLE_READ_DUPLICATION => 39,
        UVM_SET_ACCESSED_BY => 40,
        UVM_UNSET_ACCESSED_BY => 41,
        UVM_MIGRATE => 42,
        UVM_MIGRATE_RANGE_GROUP => 43,
        UVM_ENABLE_SYSTEM_WIDE_ATOMICS => 44,
        UVM_DISABLE_SYSTEM_WIDE_ATOMICS => 45,
        UVM_TOOLS_INIT_EVENT_TRACKER => 46,
        UVM_TOOLS_SET_NOTIFICATION_THRESHOLD => 47,
        UVM_TOOLS_EVENT_QUEUE_ENABLE_EVENTS => 48,
        UVM_TOOLS_EVENT_QUEUE_DISABLE_EVENTS => 49,
        UVM_TOOLS_ENABLE_COUNTERS => 50,
        UVM_TOOLS_DISABLE_COUNTERS => 51,
        UVM_TOOLS_READ_PROCESS_MEMORY => 52,
        UVM_TOOLS_WRITE_PROCESS_MEMORY => 53,
        UVM_TOOLS_GET_PROCESSOR_UUID_TABLE => 54,
        UVM_MAP_DYNAMIC_PARALLELISM_REGION => 55,
        UVM_UNMAP_EXTERNAL => 56,
        UVM_TOOLS_FLUSH_EVENTS => 57,
        UVM_ALLOC_SEMAPHORE_POOL => 58,
        UVM_CLEAN_UP_ZOMBIE_RESOURCES => 59,
        UVM_PAGEABLE_MEM_ACCESS_ON_GPU => 60,
        UVM_POPULATE_PAGEABLE => 61,
        UVM_VALIDATE_VA_RANGE => 62,
        UVM_CREATE_EXTERNAL_RANGE => 63,
        UVM_MAP_EXTERNAL_SPARSE => 64,
        UVM_MM_INITIALIZE => 65,
        UVM_TOOLS_INIT_EVENT_TRACKER_V2 => 66,
        UVM_TOOLS_GET_PROCESSOR_UUID_TABLE_V2 => 67,
        UVM_ALLOC_DEVICE_P2P => 68,
        UVM_CLEAR_ALL_ACCESS_COUNTERS => 69,
        UVM_DISCARD => 70,
        UVM_IS_8_SUPPORTED => 71,
        _ => 72,
    }
}

/// The position of `name` in `uvm_cmd_names()`.
spec fn position_of_name(name: Seq<char>) -> int {
    if name == uvm_cmd_names()[0] {
        0
    } else if name == uvm_cmd_names()[1] {
        1
    } else if name == uvm_cmd_names()[2] {
        2
    } else if name == uvm_cmd_names()[3] {
        3
    } else if name == uvm_cmd_names()[4] {
        4
    } else if name == uvm_cmd_names()[5] {
        5
    } else if name == uvm_cmd_names()[6] {
        6
    } else if name == uvm_cmd_names()[7] {
        7
    } else if name == uvm_cmd_names()[8] {
        8
    } else if name == uvm_cmd_names()[9] {
        9
    } else if name == uvm_cmd_names()[10] {
        10
    } else if name == uvm_cmd_names()[11] {
        11
    } else if name == uvm_cmd_names()[12] {
        12
    } else if name == uvm_cmd_names()[13] {
        13
    } else if name == uvm_cmd_names()[14] {
        14
    } else if name == uvm_cmd_names()[15] {
        15
    } else if name == uvm_cmd_names()[16] {
        16
    } else if name == uvm_cmd_names()[17] {
        17
    } else if name == uvm_cmd_names()[18] {
        18
    } else if name == uvm_cmd_names()[19] {
        19
    } else if name == uvm_cmd_names()[20] {
        20
    } else if name == uvm_cmd_names()[21] {
        21
    } else if name == uvm_cmd_names()[22] {
        22
    } else if name == uvm_cmd_names()[23] {
        23
    } else if name == uvm_cmd_names()[24] {
        24
    } else if name == uvm_cmd_names()[25] {
        25
    } else if name == uvm_cmd_names()[26] {
        26
    } else if name == uvm_cmd_names()[27] {
        27
    } else if name == uvm_cmd_names()[28] {
        28
    } else if name == uvm_cmd_names()[29] {
        29
    } else if name == uvm_cmd_names()[30] {
        30
    } else if name == uvm_cmd_names()[31] {
        31
    } else if name == uvm_cmd_names()[32] {
        32
    } else if name == uvm_cmd_names()[33] {
        33
    } else if name == uvm_cmd_names()[34] {
        34
    } else if name == uvm_cmd_names()[35] {
        35
    } else if name == uvm_cmd_names()[36] {
        36
    } else if name == uvm_cmd_names()[37] {
        37
    } else if name == uvm_cmd_names()[38] {
        38
    } else if name == uvm_cmd_names()[39] {
        39
    } else if name == uvm_cmd_names()[40] {
        40
    } else if name == uvm_cmd_names()[41] {
        41
    } else if name == uvm_cmd_names()[42] {
        42
    } else if name == uvm_cmd_names()[43] {
        43
    } else if name == uvm_cmd_names()[44] {
        44
    } else if name == uvm_cmd_names()[45] {
        45
    } else if name == uvm_cmd_names()[46] {
        46
    } else if name == uvm_cmd_names()[47] {
        47
    } else if name == uvm_cmd_names()[48] {
        48
    } else if name == uvm_cmd_names()[49] {
        49
    } else if name == uvm_cmd_names()[50] {
        50
    } else if name == uvm_cmd_names()[51] {
        51
    } else if name == uvm_cmd_names()[52] {
        52
    } else if name == uvm_cmd_names()[53] {
        53
    } else if name == uvm_cmd_names()[54] {
        54
    } else if name == uvm_cmd_names()[55] {
        55
    } else if name == uvm_cmd_names()[56] {
        56
    } else if name == uvm_cmd_names()[57] {
        57
    } else if name == uvm_cmd_names()[58] {
        58
    } else if name == uvm_cmd_names()[59] {
        59
    } else if name == uvm_cmd_names()[60] {
        60
    } else if name == uvm_cmd_names()[61] {
        61
    } else if name == uvm_cmd_names()[62] {
        62
    } else if name == uvm_cmd_names()[63] {
        63
    } else if name == uvm_cmd_names()[64] {
        64
    } else if name == uvm_cmd_names()[65] {
        65
    } else if name == uvm_cmd_names()[66] {
        66
    } else if name == uvm_cmd_names()[67] {
        67
    } else if name == uvm_cmd_names()[68] {
        68
    } else if name == uvm_cmd_names()[69] {
        69
    } else if name == uvm_cmd_names()[70] {
        70
    } else if name == uvm_cmd_names()[71] {
        71
    } else if name == uvm_cmd_names()[72] {
        72
    } else {
        73
    }
}

proof fn lemma_names_positions()
    ensures
        forall|i: int| 0 <= i < uvm_cmd_names().len() ==> position_of_name(#[trigger] uvm_cmd_names()[i]) == i,
{
    reveal_strlit("UVM_INITIALIZE");
    reveal_strlit("UVM_DEINITIALIZE");
    reveal_strlit("UVM_RESERVE_VA");
    reveal_strlit("UVM_RELEASE_VA");
    reveal_strlit("UVM_REGION_COMMIT");
    reveal_strlit("UVM_REGION_DECOMMIT");
    reveal_strlit("UVM_REGION_SET_STREAM");
    reveal_strlit("UVM_SET_STREAM_RUNNING");
    reveal_strlit("UVM_SET_STREAM_STOPPED");
    reveal_strlit("UVM_ADD_SESSION");
    reveal_strlit("UVM_ENABLE_COUNTERS");
    reveal_strlit("UVM_MAP_COUNTER");
    reveal_strlit("UVM_CREATE_EVENT_QUEUE");
    reveal_strlit("UVM_REMOVE_EVENT_QUEUE");
    reveal_strlit("UVM_MAP_EVENT_QUEUE");
    reveal_strlit("UVM_EVENT_CTRL");
    reveal_strlit("UVM_GET_GPU_UUID_TABLE");
    reveal_strlit("UVM_REGION_SET_BACKING");
    reveal_strlit("UVM_REGION_UNSET_BACKING");
    reveal_strlit("UVM_CREATE_RANGE_GROUP");
    reveal_strlit("UVM_DESTROY_RANGE_GROUP");
    reveal_strlit("UVM_REGISTER_GPU_VASPACE");
    reveal_strlit("UVM_UNREGISTER_GPU_VASPACE");
    reveal_strlit("UVM_REGISTER_CHANNEL");
    reveal_strlit("UVM_UNREGISTER_CHANNEL");
    reveal_strlit("UVM_ENABLE_PEER_ACCESS");
    reveal_strlit("UVM_DISABLE_PEER_ACCESS");
    reveal_strlit("UVM_SET_RANGE_GROUP");
    reveal_strlit("UVM_MAP_EXTERNAL_ALLOCATION");
    reveal_strlit("UVM_FREE");
    reveal_strlit("UVM_MEM_MAP");
    reveal_strlit("UVM_REGISTER_GPU");
    reveal_strlit("UVM_UNREGISTER_GPU");
    reveal_strlit("UVM_PAGEABLE_MEM_ACCESS");
    reveal_strlit("UVM_PREVENT_MIGRATION_RANGE_GROUPS");
    reveal_strlit("UVM_ALLOW_MIGRATION_RANGE_GROUPS");
    reveal_strlit("UVM_SET_PREFERRED_LOCATION");
    reveal_strlit("UVM_UNSET_PREFERRED_LOCATION");
    reveal_strlit("UVM_ENABLE_READ_DUPLICATION");
    reveal_strlit("UVM_DISABLE_READ_DUPLICATION");
    reveal_strlit("UVM_SET_ACCESSED_BY");
    reveal_strlit("UVM_UNSET_ACCESSED_BY");
    reveal_strlit("UVM_MIGRATE");
    reveal_strlit("UVM_MIGRATE_RANGE_GROUP");
    reveal_strlit("UVM_ENABLE_SYSTEM_WIDE_ATOMICS");
    reveal_strlit("UVM_DISABLE_SYSTEM_WIDE_ATOMICS");
    reveal_strlit("UVM_TOOLS_INIT_EVENT_TRACKER");
    reveal_strlit("UVM_TOOLS_SET_NOTIFICATION_THRESHOLD");
    reveal_strlit("UVM_TOOLS_EVENT_QUEUE_ENABLE_EVENTS");
    reveal_strlit("UVM_TOOLS_EVENT_QUEUE_DISABLE_EVENTS");
    reveal_strlit("UVM_TOOLS_ENABLE_COUNTERS");
    reveal_strlit("UVM_TOOLS_DISABLE_COUNTERS");
    reveal_strlit("UVM_TOOLS_READ_PROCESS_MEMORY");
    reveal_strlit("UVM_TOOLS_WRITE_PROCESS_MEMORY");
    reveal_strlit("UVM_TOOLS_GET_PROCESSOR_UUID_TABLE");
    reveal_strlit("UVM_MAP_DYNAMIC_PARALLELISM_REGION");
    reveal_strlit("UVM_UNMAP_EXTERNAL");
    reveal_strlit("UVM_TOOLS_FLUSH_EVENTS");
    reveal_strlit("UVM_ALLOC_SEMAPHORE_POOL");
    reveal_strlit("UVM_CLEAN_UP_ZOMBIE_RESOURCES");
    reveal_strlit("UVM_PAGEABLE_MEM_ACCESS_ON_GPU");
    reveal_strlit("UVM_POPULATE_PAGEABLE");
    reveal_strlit("UVM_VALIDATE_VA_RANGE");
    reveal_strlit("UVM_CREATE_EXTERNAL_RANGE");
    reveal_strlit("UVM_MAP_EXTERNAL_SPARSE");
    reveal_strlit("UVM_MM_INITIALIZE");
    reveal_strlit("UVM_TOOLS_INIT_EVENT_TRACKER_V2");
    reveal_strlit("UVM_TOOLS_GET_PROCESSOR_UUID_TABLE_V2");
    reveal_strlit("UVM_ALLOC_DEVICE_P2P");
    reveal_strlit("UVM_CLEAR_ALL_ACCESS_COUNTERS");
    reveal_strlit("UVM_DISCARD");
    reveal_strlit("UVM_IS_8_SUPPORTED");
    reveal_strlit("UNKNOWN");
    let t = uvm_cmd_names();
    assert(t[0].len() == 14);
    assert(t[1].len() == 16);
    assert(t[2].len() == 14);
    assert(t[3].len() == 14);
    assert(t[4].len() == 17);
    assert(t[5].len() == 19);
    assert(t[6].len() == 21);
    assert(t[7].len() == 22);
    assert(t[8].len() == 22);
    assert(t[9].len() == 15);
    assert(t[10].len() == 19);
    assert(t[11].len() == 15);
    assert(t[12].len() == 22);
    assert(t[13].len() == 22);
    assert(t[14].len() == 19);
    assert(t[15].len() == 14);
    assert(t[16].len() == 22);
    assert(t[17].len() == 22);
    assert(t[18].len() == 24);
    assert(t[19].len() == 22);
    assert(t[20].len() == 23);
    assert(t[21].len() == 24);
    assert(t[22].len() == 26);
    assert(t[23].len() == 20);
    assert(t[24].len() == 22);
    assert(t[25].len() == 22);
    assert(t[26].len() == 23);
    assert(t[27].len() == 19);
    assert(t[28].len() == 27);
    assert(t[29].len() == 8);
    assert(t[30].len() == 11);
    assert(t[31].len() == 16);
    assert(t[32].len() == 18);
    assert(t[33].len() == 23);
    assert(t[34].len() == 34);
    assert(t[35].len() == 32);
    assert(t[36].len() == 26);
    assert(t[37].len() == 28);
    assert(t[38].len() == 27);
    assert(t[39].len() == 28);
    assert(t[40].len() == 19);
    assert(t[41].len() == 21);
    assert(t[42].len() == 11);
    assert(t[43].len() == 23);
    assert(t[44].len() == 30);
    assert(t[45].len() == 31);
    assert(t[46].len() == 28);
    assert(t[47].len() == 36);
    assert(t[48].len() == 35);
    assert(t[49].len() == 36);
    assert(t[50].len() == 25);
    assert(t[51].len() == 26);
    assert(t[52].len() == 29);
    assert(t[53].len() == 30);
    assert(t[54].len() == 34);
    assert(t[55].len() == 34);
    assert(t[56].len() == 18);
    assert(t[57].len() == 22);
    assert(t[58].len() == 24);
    assert(t[59].len() == 29);
    assert(t[60].len() == 30);
    assert(t[61].len() == 21);
    assert(t[62].len() == 21);
    assert(t[63].len() == 25);
    assert(t[64].len() == 23);
    assert(t[65].len() == 17);
    assert(t[66].len() == 31);
    assert(t[67].len() == 37);
    assert(t[68].len() == 20);
    assert(t[69].len() == 29);
    assert(t[70].len() == 11);
    assert(t[71].len() == 18);
    assert(t[72].len() == 7);
    assert(t[0][4] != t[2][4]);
    assert(t[0][4] != t[3][4]);
    assert(t[0][4] != t[15][4]);
    assert(t[1][4] != t[31][4]);
    assert(t[2][6] != t[3][6]);
    assert(t[2][4] != t[15][4]);
    assert(t[3][4] != t[15][4]);
    assert(t[4][4] != t[65][4]);
    assert(t[5][4] != t[10][4]);
    assert(t[5][4] != t[14][4]);
    assert(t[5][4] != t[27][4]);
    assert(t[5][4] != t[40][4]);
    assert(t[6][4] != t[41][4]);
    assert(t[6][4] != t[61][4]);
    assert(t[6][4] != t[62][4]);
    assert(t[7][15] != t[8][15]);
    assert(t[7][4] != t[12][4]);
    assert(t[7][4] != t[13][4]);
    assert(t[7][4] != t[16][4]);
    assert(t[7][4] != t[17][4]);
    assert(t[7][4] != t[19][4]);
    assert(t[7][4] != t[24][4]);
    assert(t[7][4] != t[25][4]);
    assert(t[7][4] != t[57][4]);
    assert(t[8][4] != t[12][4]);
    assert(t[8][4] != t[13][4]);
    assert(t[8][4] != t[16][4]);
    assert(t[8][4] != t[17][4]);
    assert(t[8][4] != t[19][4]);
    assert(t[8][4] != t[24][4]);
    assert(t[8][4] != t[25][4]);
    assert(t[8][4] != t[57][4]);
    assert(t[9][4] != t[11][4]);
    assert(t[10][4] != t[14][4]);
    assert(t[10][4] != t[27][4]);
    assert(t[10][4] != t[40][4]);
    assert(t[12][4] != t[13][4]);
    assert(t[12][4] != t[16][4]);
    assert(t[12][4] != t[17][4]);
    assert(t[12][11] != t[19][11]);
    assert(t[12][4] != t[24][4]);
    assert(t[12][4] != t[25][4]);
    assert(t[12][4] != t[57][4]);
    assert(t[13][4] != t[16][4]);
    assert(t[13][6] != t[17][6]);
    assert(t[13][4] != t[19][4]);
    assert(t[13][4] != t[24][4]);
    assert(t[13][4] != t[25][4]);
    assert(t[13][4] != t[57][4]);
    assert(t[14][4] != t[27][4]);
    assert(t[14][4] != t[40][4]);
    assert(t[16][4] != t[17][4]);
    assert(t[16][4] != t[19][4]);
    assert(t[16][4] != t[24][4]);
    assert(t[16][4] != t[25][4]);
    assert(t[16][4] != t[57][4]);
    assert(t[17][4] != t[19][4]);
    assert(t[17][4] != t[24][4]);
    assert(t[17][4] != t[25][4]);
    assert(t[17][4] != t[57][4]);
    assert(t[18][8] != t[21][8]);
    assert(t[18][4] != t[58][4]);
    assert(t[19][4] != t[24][4]);
    assert(t[19][4] != t[25][4]);
    assert(t[19][4] != t[57][4]);
    assert(t[20][5] != t[26][5]);
    assert(t[20][4] != t[33][4]);
    assert(t[20][4] != t[43][4]);
    assert(t[20][4] != t[64][4]);
    assert(t[21][4] != t[58][4]);
    assert(t[22][4] != t[36][4]);
    assert(t[22][4] != t[51][4]);
    assert(t[23][4] != t[68][4]);
    assert(t[24][4] != t[25][4]);
    assert(t[24][4] != t[57][4]);
    assert(t[25][4] != t[57][4]);
    assert(t[26][4] != t[33][4]);
    assert(t[26][4] != t[43][4]);
    assert(t[26][4] != t[64][4]);
    assert(t[27][8] != t[40][8]);
    assert(t[28][4] != t[38][4]);
    assert(t[30][5] != t[42][5]);
    assert(t[30][4] != t[70][4]);
    assert(t[32][6] != t[56][6]);
    assert(t[32][4] != t[71][4]);
    assert(t[33][4] != t[43][4]);
    assert(t[33][4] != t[64][4]);
    assert(t[34][4] != t[54][4]);
    assert(t[34][4] != t[55][4]);
    assert(t[36][4] != t[51][4]);
    assert(t[37][4] != t[39][4]);
    assert(t[37][4] != t[46][4]);
    assert(t[39][4] != t[46][4]);
    assert(t[41][4] != t[61][4]);
    assert(t[41][4] != t[62][4]);
    assert(t[42][4] != t[70][4]);
    assert(t[43][5] != t[64][5]);
    assert(t[44][4] != t[53][4]);
    assert(t[44][4] != t[60][4]);
    assert(t[45][4] != t[66][4]);
    assert(t[47][10] != t[49][10]);
    assert(t[50][4] != t[63][4]);
    assert(t[52][4] != t[59][4]);
    assert(t[52][4] != t[69][4]);
    assert(t[53][4] != t[60][4]);
    assert(t[54][4] != t[55][4]);
    assert(t[56][4] != t[71][4]);
    assert(t[59][8] != t[69][8]);
    assert(t[61][4] != t[62][4]);
    assert(position_of_name(t[0]) == 0);
    assert(position_of_name(t[1]) == 1);
    assert(position_of_name(t[2]) == 2);
    assert(position_of_name(t[3]) == 3);
    assert(position_of_name(t[4]) == 4);
    assert(position_of_name(t[5]) == 5);
    assert(position_of_name(t[6]) == 6);
    assert(position_of_name(t[7]) == 7);
    assert(position_of_name(t[8]) == 8);
    assert(position_of_name(t[9]) == 9);
    assert(position_of_name(t[10]) == 10);
    assert(position_of_name(t[11]) == 11);
    assert(position_of_name(t[12]) == 12);
    assert(position_of_name(t[13]) == 13);
    assert(position_of_name(t[14]) == 14);
    assert(position_of_name(t[15]) == 15);
    assert(position_of_name(t[16]) == 16);
    assert(position_of_name(t[17]) == 17);
    assert(position_of_name(t[18]) == 18);
    assert(position_of_name(t[19]) == 19);
    assert(position_of_name(t[20]) == 20);
    assert(position_of_name(t[21]) == 21);
    assert(position_of_name(t[22]) == 22);
    assert(position_of_name(t[23]) == 23);
    assert(position_of_name(t[24]) == 24);
    assert(position_of_name(t[25]) == 25);
    assert(position_of_name(t[26]) == 26);
    assert(position_of_name(t[27]) == 27);
    assert(position_of_name(t[28]) == 28);
    assert(position_of_name(t[29]) == 29);
    assert(position_of_name(t[30]) == 30);
    assert(position_of_name(t[31]) == 31);
    assert(position_of_name(t[32]) == 32);
    assert(position_of_name(t[33]) == 33);
    assert(position_of_name(t[34]) == 34);
    assert(position_of_name(t[35]) == 35);
    assert(position_of_name(t[36]) == 36);
    assert(position_of_name(t[37]) == 37);
    assert(position_of_name(t[38]) == 38);
    assert(position_of_name(t[39]) == 39);
    assert(position_of_name(t[40]) == 40);
    assert(position_of_name(t[41]) == 41);
    assert(position_of_name(t[42]) == 42);
    assert(position_of_name(t[43]) == 43);
    assert(position_of_name(t[44]) == 44);
    assert(position_of_name(t[45]) == 45);
    assert(position_of_name(t[46]) == 46);
    assert(position_of_name(t[47]) == 47);
    assert(position_of_name(t[48]) == 48);
    assert(position_of_name(t[49]) == 49);
    assert(position_of_name(t[50]) == 50);
    assert(position_of_name(t[51]) == 51);
    assert(position_of_name(t[52]) == 52);
    assert(position_of_name(t[53]) == 53);
    assert(position_of_name(t[54]) == 54);
    assert(position_of_name(t[55]) == 55);
    assert(position_of_name(t[56]) == 56);
    assert(position_of_name(t[57]) == 57);
    assert(position_of_name(t[58]) == 58);
    assert(position_of_name(t[59]) == 59);
    assert(position_of_name(t[60]) == 60);
    assert(position_of_name(t[61]) == 61);
    assert(position_of_name(t[62]) == 62);
    assert(position_of_name(t[63]) == 63);
    assert(position_of_name(t[64]) == 64);
    assert(position_of_name(t[65]) == 65);
    assert(position_of_name(t[66]) == 66);
    assert(position_of_name(t[67]) == 67);
    assert(position_of_name(t[68]) == 68);
    assert(position_of_name(t[69]) == 69);
    assert(position_of_name(t[70]) == 70);
    assert(position_of_name(t[71]) == 71);
    assert(position_of_name(t[72]) == 72);
}

proof fn lemma_name_index(cmd: u64)
    ensures
        0 <= name_index(cmd) < uvm_cmd_names().len(),
        cmd_name(cmd)@ == uvm_cmd_names()[name_index(cmd)],
        name_index(cmd) < uvm_cmd_codes().len() ==> normalized(cmd) == uvm_cmd_codes()[name_index(cmd)],
        name_index(cmd) == uvm_cmd_codes().len() ==> !uvm_cmd_codes().contains(normalized(cmd)),
{
    let c = normalized(cmd);
    let codes = uvm_cmd_codes();
    if name_index(cmd) == codes.len() {
        assert forall|k: int| 0 <= k < codes.len() implies codes[k] != c by {}
    }
}

/// Each numbered UVM command has a name of its own, different from `UNKNOWN`, and
/// `UNKNOWN` names exactly the commands without a number of the table; only the lower
/// 32 bits of a command count.
pub proof fn lemma_cmd_names_distinct(a: u64, b: u64)
    ensures
        cmd_name(a)@ == "UNKNOWN"@ <==> !uvm_cmd_codes().contains(normalized(a)),
        cmd_name(a)@ == cmd_name(b)@ && cmd_name(a)@ != "UNKNOWN"@ ==> normalized(a) == normalized(b),
{
    lemma_names_positions();
    lemma_name_index(a);
    lemma_name_index(b);
    let t = uvm_cmd_names();
    assert(position_of_name(t[name_index(a)]) == name_index(a));
    assert(position_of_name(t[name_index(b)]) == name_index(b));
    assert(position_of_name(t[t.len() - 1]) == t.len() - 1);
}

/// The name of a UVM command, or `UNKNOWN`.
pub open spec fn cmd_name(cmd: u64) -> &'static str {
    match normalized(cmd) {
        UVM_INITIALIZE => "UVM_INITIALIZE",
        UVM_DEINITIALIZE => "UVM_DEINITIALIZE",
        UVM_RESERVE_VA => "UVM_RESERVE_VA",
        UVM_RELEASE_VA => "UVM_RELEASE_VA",
        UVM_REGION_COMMIT => "UVM_REGION_COMMIT",
        UVM_REGION_DECOMMIT => "UVM_REGION_DECOMMIT",
        UVM_REGION_SET_STREAM => "UVM_REGION_SET_STREAM",
        UVM_SET_STREAM_RUNNING => "UVM_SET_STREAM_RUNNING",
        UVM_SET_STREAM_STOPPED => "UVM_SET_STREAM_STOPPED",
        UVM_ADD_SESSION => "UVM_ADD_SESSION",
        UVM_ENABLE_COUNTERS => "UVM_ENABLE_COUNTERS",
        UVM_MAP_COUNTER => "UVM_MAP_COUNTER",
        UVM_CREATE_EVENT_QUEUE => "UVM_CREATE_EVENT_QUEUE",
        UVM_REMOVE_EVENT_QUEUE => "UVM_REMOVE_EVENT_QUEUE",
        UVM_MAP_EVENT_QUEUE => "UVM_MAP_EVENT_QUEUE",
        UVM_EVENT_CTRL => "UVM_EVENT_CTRL",
        UVM_GET_GPU_UUID_TABLE => "UVM_GET_GPU_UUID_TABLE",
        UVM_REGION_SET_BACKING => "UVM_REGION_SET_BACKING",
        UVM_REGION_UNSET_BACKING => "UVM_REGION_UNSET_BACKING",
        UVM_CREATE_RANGE_GROUP => "UVM_CREATE_RANGE_GROUP",
        UVM_DESTROY_RANGE_GROUP => "UVM_DESTROY_RANGE_GROUP",
        UVM_REGISTER_GPU_VASPACE => "UVM_REGISTER_GPU_VASPACE",
        UVM_UNREGISTER_GPU_VASPACE => "UVM_UNREGISTER_GPU_VASPACE",
        UVM_REGISTER_CHANNEL => "UVM_REGISTER_CHANNEL",
        UVM_UNREGISTER_CHANNEL => "UVM_UNREGISTER_CHANNEL",
        UVM_ENABLE_PEER_ACCESS => "UVM_ENABLE_PEER_ACCESS",
        UVM_DISABLE_PEER_ACCESS => "UVM_DISABLE_PEER_ACCESS",
        UVM_SET_RANGE_GROUP => "UVM_SET_RANGE_GROUP",
        UVM_MAP_EXTERNAL_ALLOCATION => "UVM_MAP_EXTERNAL_ALLOCATION",
        UVM_FREE => "UVM_FREE",
        UVM_MEM_MAP => "UVM_MEM_MAP",
        UVM_REGISTER_GPU => "UVM_REGISTER_GPU",
        UVM_UNREGISTER_GPU => "UVM_UNREGISTER_GPU",
        UVM_PAGEABLE_MEM_ACCESS => "UVM_PAGEABLE_MEM_ACCESS",
        UVM_PREVENT_MIGRATION_RANGE_GROUPS => "UVM_PREVENT_MIGRATION_RANGE_GROUPS",
        UVM_ALLOW_MIGRATION_RANGE_GROUPS => "UVM_ALLOW_MIGRATION_RANGE_GROUPS",
        UVM_SET_PREFERRED_LOCATION => "UVM_SET_PREFERRED_LOCATION",
        UVM_UNSET_PREFERRED_LOCATION => "UVM_UNSET_PREFERRED_LOCATION",
        UVM_ENABLE_READ_DUPLICATION => "UVM_ENABLE_READ_DUPLICATION",
        UVM_DISABLE_READ_DUPLICATION => "UVM_DISABLE_READ_DUPLICATION",
        UVM_SET_ACCESSED_BY => "UVM_SET_ACCESSED_BY",
        UVM_UNSET_ACCESSED_BY => "UVM_UNSET_ACCESSED_BY",
        UVM_MIGRATE => "UVM_MIGRATE",
        UVM_MIGRATE_RANGE_GROUP => "UVM_MIGRATE_RANGE_GROUP",
        UVM_ENABLE_SYSTEM_WIDE_ATOMICS => "UVM_ENABLE_SYSTEM_WIDE_ATOMICS",
        UVM_DISABLE_SYSTEM_WIDE_ATOMICS => "UVM_DISABLE_SYSTEM_WIDE_ATOMICS",
        UVM_TOOLS_INIT_EVENT_TRACKER => "UVM_TOOLS_INIT_EVENT_TRACKER",
        UVM_TOOLS_SET_NOTIFICATION_THRESHOLD => "UVM_TOOLS_SET_NOTIFICATION_THRESHOLD",
        UVM_TOOLS_EVENT_QUEUE_ENABLE_EVENTS => "UVM_TOOLS_EVENT_QUEUE_ENABLE_EVENTS",
        UVM_TOOLS_EVENT_QUEUE_DISABLE_EVENTS => "UVM_TOOLS_EVENT_QUEUE_DISABLE_EVENTS",
        UVM_TOOLS_ENABLE_COUNTERS => "UVM_TOOLS_ENABLE_COUNTERS",
        UVM_TOOLS_DISABLE_COUNTERS => "UVM_TOOLS_DISABLE_COUNTERS",
        UVM_TOOLS_READ_PROCESS_MEMORY => "UVM_TOOLS_READ_PROCESS_MEMORY",
        UVM_TOOLS_WRITE_PROCESS_MEMORY => "UVM_TOOLS_WRITE_PROCESS_MEMORY",
        UVM_TOOLS_GET_PROCESSOR_UUID_TABLE => "UVM_TOOLS_GET_PROCESSOR_UUID_TABLE",
        UVM_MAP_DYNAMIC_PARALLELISM_REGION => "UVM_MAP_DYNAMIC_PARALLELISM_REGION",
        UVM_UNMAP_EXTERNAL => "UVM_UNMAP_EXTERNAL",
        UVM_TOOLS_FLUSH_EVENTS => "UVM_TOOLS_FLUSH_EVENTS",
        UVM_ALLOC_SEMAPHORE_POOL => "UVM_ALLOC_SEMAPHORE_POOL",
        UVM_CLEAN_UP_ZOMBIE_RESOURCES => "UVM_CLEAN_UP_ZOMBIE_RESOURCES",
        UVM_PAGEABLE_MEM_ACCESS_ON_GPU => "UVM_PAGEABLE_MEM_ACCESS_ON_GPU",
        UVM_POPULATE_PAGEABLE => "UVM_POPULATE_PAGEABLE",
        UVM_VALIDATE_VA_RANGE => "UVM_VALIDATE_VA_RANGE",
        UVM_CREATE_EXTERNAL_RANGE => "UVM_CREATE_EXTERNAL_RANGE",
        UVM_MAP_EXTERNAL_SPARSE => "UVM_MAP_EXTERNAL_SPARSE",
        UVM_MM_INITIALIZE => "UVM_MM_INITIALIZE",
        UVM_TOOLS_INIT_EVENT_TRACKER_V2 => "UVM_TOOLS_INIT_EVENT_TRACKER_V2",
        UVM_TOOLS_GET_PROCESSOR_UUID_TABLE_V2 => "UVM_TOOLS_GET_PROCESSOR_UUID_TABLE_V2",
        UVM_ALLOC_DEVICE_P2P => "UVM_ALLOC_DEVICE_P2P",
        UVM_CLEAR_ALL_ACCESS_COUNTERS => "UVM_CLEAR_ALL_ACCESS_COUNTERS",
        UVM_DISCARD => "UVM_DISCARD",
        UVM_IS_8_SUPPORTED => "UVM_IS_8_SUPPORTED",
        _ => "UNKNOWN",
    }
}

/// The command number with its upper 32 bits cleared.
pub fn normalize_uvm_cmd(cmd: u64) -> (r: u64)
    ensures
        r == normalized(cmd),
{
    assert(cmd & 0xffff_ffff == cmd % 0x1_0000_0000) by (bit_vector);
    cmd & 0xffff_ffff
}

/// The name of a UVM command, or `UNKNOWN`.
pub fn uvm_cmd_name(cmd: u64) -> (r: &'static str)
    ensures
        r == cmd_name(cmd),
{
    let cmd = normalize_uvm_cmd(cmd);
    match cmd {
        UVM_INITIALIZE => "UVM_INITIALIZE",
        UVM_DEINITIALIZE => "UVM_DEINITIALIZE",
        UVM_RESERVE_VA => "UVM_RESERVE_VA",
        UVM_RELEASE_VA => "UVM_RELEASE_VA",
        UVM_REGION_COMMIT => "UVM_REGION_COMMIT",
        UVM_REGION_DECOMMIT => "UVM_REGION_DECOMMIT",
        UVM_REGION_SET_STREAM => "UVM_REGION_SET_STREAM",
        UVM_SET_STREAM_RUNNING => "UVM_SET_STREAM_RUNNING",
        UVM_SET_STREAM_STOPPED => "UVM_SET_STREAM_STOPPED",
        UVM_ADD_SESSION => "UVM_ADD_SESSION",
        UVM_ENABLE_COUNTERS => "UVM_ENABLE_COUNTERS",
        UVM_MAP_COUNTER => "UVM_MAP_COUNTER",
        UVM_CREATE_EVENT_QUEUE => "UVM_CREATE_EVENT_QUEUE",
        UVM_REMOVE_EVENT_QUEUE => "UVM_REMOVE_EVENT_QUEUE",
        UVM_MAP_EVENT_QUEUE => "UVM_MAP_EVENT_QUEUE",
        UVM_EVENT_CTRL => "UVM_EVENT_CTRL",
        UVM_GET_GPU_UUID_TABLE => "UVM_GET_GPU_UUID_TABLE",
        UVM_REGION_SET_BACKING => "UVM_REGION_SET_BACKING",
        UVM_REGION_UNSET_BACKING => "UVM_REGION_UNSET_BACKING",
        UVM_CREATE_RANGE_GROUP => "UVM_CREATE_RANGE_GROUP",
        UVM_DESTROY_RANGE_GROUP => "UVM_DESTROY_RANGE_GROUP",
        UVM_REGISTER_GPU_VASPACE => "UVM_REGISTER_GPU_VASPACE",
        UVM_UNREGISTER_GPU_VASPACE => "UVM_UNREGISTER_GPU_VASPACE",
        UVM_REGISTER_CHANNEL => "UVM_REGISTER_CHANNEL",
        UVM_UNREGISTER_CHANNEL => "UVM_UNREGISTER_CHANNEL",
        UVM_ENABLE_PEER_ACCESS => "UVM_ENABLE_PEER_ACCESS",
        UVM_DISABLE_PEER_ACCESS => "UVM_DISABLE_PEER_ACCESS",
        UVM_SET_RANGE_GROUP => "UVM_SET_RANGE_GROUP",
        UVM_MAP_EXTERNAL_ALLOCATION => "UVM_MAP_EXTERNAL_ALLOCATION",
        UVM_FREE => "UVM_FREE",
        UVM_MEM_MAP => "UVM_MEM_MAP",
        UVM_REGISTER_GPU => "UVM_REGISTER_GPU",
        UVM_UNREGISTER_GPU => "UVM_UNREGISTER_GPU",
        UVM_PAGEABLE_MEM_ACCESS => "UVM_PAGEABLE_MEM_ACCESS",
        UVM_PREVENT_MIGRATION_RANGE_GROUPS => "UVM_PREVENT_MIGRATION_RANGE_GROUPS",
        UVM_ALLOW_MIGRATION_RANGE_GROUPS => "UVM_ALLOW_MIGRATION_RANGE_GROUPS",
        UVM_SET_PREFERRED_LOCATION => "UVM_SET_PREFERRED_LOCATION",
        UVM_UNSET_PREFERRED_LOCATION => "UVM_UNSET_PREFERRED_LOCATION",
        UVM_ENABLE_READ_DUPLICATION => "UVM_ENABLE_READ_DUPLICATION",
        UVM_DISABLE_READ_DUPLICATION => "UVM_DISABLE_READ_DUPLICATION",
        UVM_SET_ACCESSED_BY => "UVM_SET_ACCESSED_BY",
        UVM_UNSET_ACCESSED_BY => "UVM_UNSET_ACCESSED_BY",
        UVM_MIGRATE => "UVM_MIGRATE",
        UVM_MIGRATE_RANGE_GROUP => "UVM_MIGRATE_RANGE_GROUP",
        UVM_ENABLE_SYSTEM_WIDE_ATOMICS => "UVM_ENABLE_SYSTEM_WIDE_ATOMICS",
        UVM_DISABLE_SYSTEM_WIDE_ATOMICS => "UVM_DISABLE_SYSTEM_WIDE_ATOMICS",
        UVM_TOOLS_INIT_EVENT_TRACKER => "UVM_TOOLS_INIT_EVENT_TRACKER",
        UVM_TOOLS_SET_NOTIFICATION_THRESHOLD => "UVM_TOOLS_SET_NOTIFICATION_THRESHOLD",
        UVM_TOOLS_EVENT_QUEUE_ENABLE_EVENTS => "UVM_TOOLS_EVENT_QUEUE_ENABLE_EVENTS",
        UVM_TOOLS_EVENT_QUEUE_DISABLE_EVENTS => "UVM_TOOLS_EVENT_QUEUE_DISABLE_EVENTS",
        UVM_TOOLS_ENABLE_COUNTERS => "UVM_TOOLS_ENABLE_COUNTERS",
        UVM_TOOLS_DISABLE_COUNTERS => "UVM_TOOLS_DISABLE_COUNTERS",
        UVM_TOOLS_READ_PROCESS_MEMORY => "UVM_TOOLS_READ_PROCESS_MEMORY",
        UVM_TOOLS_WRITE_PROCESS_MEMORY => "UVM_TOOLS_WRITE_PROCESS_MEMORY",
        UVM_TOOLS_GET_PROCESSOR_UUID_TABLE => "UVM_TOOLS_GET_PROCESSOR_UUID_TABLE",
        UVM_MAP_DYNAMIC_PARALLELISM_REGION => "UVM_MAP_DYNAMIC_PARALLELISM_REGION",
        UVM_UNMAP_EXTERNAL => "UVM_UNMAP_EXTERNAL",
        UVM_TOOLS_FLUSH_EVENTS => "UVM_TOOLS_FLUSH_EVENTS",
        UVM_ALLOC_SEMAPHORE_POOL => "UVM_ALLOC_SEMAPHORE_POOL",
        UVM_CLEAN_UP_ZOMBIE_RESOURCES => "UVM_CLEAN_UP_ZOMBIE_RESOURCES",
        UVM_PAGEABLE_MEM_ACCESS_ON_GPU => "UVM_PAGEABLE_MEM_ACCESS_ON_GPU",
        UVM_POPULATE_PAGEABLE => "UVM_POPULATE_PAGEABLE",
        UVM_VALIDATE_VA_RANGE => "UVM_VALIDATE_VA_RANGE",
        UVM_CREATE_EXTERNAL_RANGE => "UVM_CREATE_EXTERNAL_RANGE",
        UVM_MAP_EXTERNAL_SPARSE => "UVM_MAP_EXTERNAL_SPARSE",
        UVM_MM_INITIALIZE => "UVM_MM_INITIALIZE",
        UVM_TOOLS_INIT_EVENT_TRACKER_V2 => "UVM_TOOLS_INIT_EVENT_TRACKER_V2",
        UVM_TOOLS_GET_PROCESSOR_UUID_TABLE_V2 => "UVM_TOOLS_GET_PROCESSOR_UUID_TABLE_V2",
        UVM_ALLOC_DEVICE_P2P => "UVM_ALLOC_DEVICE_P2P",
        UVM_CLEAR_ALL_ACCESS_COUNTERS => "UVM_CLEAR_ALL_ACCESS_COUNTERS",
        UVM_DISCARD => "UVM_DISCARD",
        UVM_IS_8_SUPPORTED => "UVM_IS_8_SUPPORTED",
        _ => "UNKNOWN",
    }
}

/// The members written for the parameter block (`UvmInitializeParams`, 16 bytes) of `UVM_INITIALIZE`.
pub open spec fn layout_initialize() -> Seq<FieldDesc> {
    seq![
        FieldDesc { key: "flags", kind: FieldKind::Hex64, at: 0 },
        FieldDesc { key: "rm_status", kind: FieldKind::I32, at: 8 },
    ]
}

fn layout_initialize_vec() -> (r: Vec<FieldDesc>)
    ensures
        r@ == layout_initialize(),
{
    vec![
        FieldDesc { key: "flags", kind: FieldKind::Hex64, at: 0 },
        FieldDesc { key: "rm_status", kind: FieldKind::I32, at: 8 },
    ]
}

/// The members written for the parameter block (`UvmReserveVaParams`, 24 bytes) of `UVM_RESERVE_VA`, `UVM_RELEASE_VA`, `UVM_REGION_DECOMMIT`, `UVM_UNSET_PREFERRED_LOCATION`, `UVM_ENABLE_READ_DUPLICATION`, `UVM_DISABLE_READ_DUPLICATION`.
pub open spec fn layout_reserve_va() -> Seq<FieldDesc> {
    seq![
        FieldDesc { key: "requestedBase", kind: FieldKind::Hex64, at: 0 },
        FieldDesc { key: "length", kind: FieldKind::U64, at: 8 },
        FieldDesc { key: "rm_status", kind: FieldKind::I32, at: 16 },
    ]
}

fn layout_reserve_va_vec() -> (r: Vec<FieldDesc>)
    ensures
        r@ == layout_reserve_va(),
{
    vec![
        FieldDesc { key: "requestedBase", kind: FieldKind::Hex64, at: 0 },
        FieldDesc { key: "length", kind: FieldKind::U64, at: 8 },
        FieldDesc { key: "rm_status", kind: FieldKind::I32, at: 16 },
    ]
}

/// The members written for the parameter block (`UvmRegionCommitParams`, 48 bytes) of `UVM_REGION_COMMIT`.
pub open spec fn layout_region_commit() -> Seq<FieldDesc> {
    seq![
        FieldDesc { key: "requestedBase", kind: FieldKind::Hex64, at: 0 },
        FieldDesc { key: "length", kind: FieldKind::U64, at: 8 },
        FieldDesc { key: "streamId", kind: FieldKind::Hex64, at: 16 },
        FieldDesc { key: "gpu_uuid", kind: FieldKind::Uuid, at: 24 },
        FieldDesc { key: "rm_status", kind: FieldKind::I32, at: 40 },
    ]
}

fn layout_region_commit_vec() -> (r: Vec<FieldDesc>)
    ensures
        r@ == layout_region_commit(),
{
    vec![
        FieldDesc { key: "requestedBase", kind: FieldKind::Hex64, at: 0 },
        FieldDesc { key: "length", kind: FieldKind::U64, at: 8 },
        FieldDesc { key: "streamId", kind: FieldKind::Hex64, at: 16 },
        FieldDesc { key: "gpu_uuid", kind: FieldKind::Uuid, at: 24 },
        FieldDesc { key: "rm_status", kind: FieldKind::I32, at: 40 },
    ]
}

/// The members written for the parameter block (`UvmRegionSetStreamParams`, 48 bytes) of `UVM_REGION_SET_STREAM`.
pub open spec fn layout_region_set_stream() -> Seq<FieldDesc> {
    seq![
        FieldDesc { key: "requestedBase", kind: FieldKind::Hex64, at: 0 },
        FieldDesc { key: "length", kind: FieldKind::U64, at: 8 },
        FieldDesc { key: "newStreamId", kind: FieldKind::Hex64, at: 16 },
        FieldDesc { key: "gpu_uuid", kind: FieldKind::Uuid, at: 24 },
        FieldDesc { key: "rm_status", kind: FieldKind::I32, at: 40 },
    ]
}

fn layout_region_set_stream_vec() -> (r: Vec<FieldDesc>)
    ensures
        r@ == layout_region_set_stream(),
{
    vec![
        FieldDesc { key: "requestedBase", kind: FieldKind::Hex64, at: 0 },
        FieldDesc { key: "length", kind: FieldKind::U64, at: 8 },
        FieldDesc { key: "newStreamId", kind: FieldKind::Hex64, at: 16 },
        FieldDesc { key: "gpu_uuid", kind: FieldKind::Uuid, at: 24 },
        FieldDesc { key: "rm_status", kind: FieldKind::I32, at: 40 },
    ]
}

/// The members written for the parameter block (`UvmSetStreamRunningParams`, 16 bytes) of `UVM_SET_STREAM_RUNNING`.
pub open spec fn layout_set_stream_running() -> Seq<FieldDesc> {
    seq![
        FieldDesc { key: "streamId", kind: FieldKind::Hex64, at: 0 },
        FieldDesc { key: "rm_status", kind: FieldKind::I32, at: 8 },
    ]
}

fn layout_set_stream_running_vec() -> (r: Vec<FieldDesc>)
    ensures
        r@ == layout_set_stream_running(),
{
    vec![
        FieldDesc { key: "streamId", kind: FieldKind::Hex64, at: 0 },
        FieldDesc { key: "rm_status", kind: FieldKind::I32, at: 8 },
    ]
}

/// The members written for the parameter block (`UvmSetStreamStoppedParams`, 272 bytes) of `UVM_SET_STREAM_STOPPED`.
pub open spec fn layout_set_stream_stopped() -> Seq<FieldDesc> {
    seq![
        FieldDesc { key: "nStreams", kind: FieldKind::U64, at: 256 },
        FieldDesc { key: "streamIds", kind: FieldKind::List { elem: ElemKind::U64, count_at: 256, count_wide: true, max: 32 }, at: 0 },
        FieldDesc { key: "truncated", kind: FieldKind::Truncated { count_at: 256, count_wide: true, max: 32 }, at: 0 },
        FieldDesc { key: "rm_status", kind: FieldKind::I32, at: 264 },
    ]
}

fn layout_set_stream_stopped_vec() -> (r: Vec<FieldDesc>)
    ensures
        r@ == layout_set_stream_stopped(),
{
    vec![
        FieldDesc { key: "nStreams", kind: FieldKind::U64, at: 256 },
        FieldDesc { key: "streamIds", kind: FieldKind::List { elem: ElemKind::U64, count_at: 256, count_wide: true, max: 32 }, at: 0 },
        FieldDesc { key: "truncated", kind: FieldKind::Truncated { count_at: 256, count_wide: true, max: 32 }, at: 0 },
        FieldDesc { key: "rm_status", kind: FieldKind::I32, at: 264 },
    ]
}

/// The members written for the parameter block (`UvmAddSessionParams`, 8 bytes) of `UVM_ADD_SESSION`.
pub open spec fn layout_add_session() -> Seq<FieldDesc> {
    seq![
        FieldDesc { key: "pidTarget", kind: FieldKind::U32, at: 0 },
        FieldDesc { key: "rm_status", kind: FieldKind::I32, at: 4 },
    ]
}

fn layout_add_session_vec() -> (r: Vec<FieldDesc>)
    ensures
        r@ == layout_add_session(),
{
    vec![
        FieldDesc { key: "pidTarget", kind: FieldKind::U32, at: 0 },
        FieldDesc { key: "rm_status", kind: FieldKind::I32, at: 4 },
    ]
}

/// The members written for the parameter block (`UvmEnableCountersParams`, 904 bytes) of `UVM_ENABLE_COUNTERS`.
pub open spec fn layout_enable_counters() -> Seq<FieldDesc> {
    seq![
        FieldDesc { key: "count", kind: FieldKind::U32, at: 896 },
        FieldDesc { key: "config", kind: FieldKind::List { elem: ElemKind::CounterConfig, count_at: 896, count_wide: false, max: 32 }, at: 0 },
        FieldDesc { key: "truncated", kind: FieldKind::Truncated { count_at: 896, count_wide: false, max: 32 }, at: 0 },
        FieldDesc { key: "rm_status", kind: FieldKind::I32, at: 900 },
    ]
}

fn layout_enable_counters_vec() -> (r: Vec<FieldDesc>)
    ensures
        r@ == layout_enable_counters(),
{
    vec![
        FieldDesc { key: "count", kind: FieldKind::U32, at: 896 },
        FieldDesc { key: "config", kind: FieldKind::List { elem: ElemKind::CounterConfig, count_at: 896, count_wide: false, max: 32 }, at: 0 },
        FieldDesc { key: "truncated", kind: FieldKind::Truncated { count_at: 896, count_wide: false, max: 32 }, at: 0 },
        FieldDesc { key: "rm_status", kind: FieldKind::I32, at: 900 },
    ]
}

/// The members written for the parameter block (`UvmMapCounterParams`, 40 bytes) of `UVM_MAP_COUNTER`.
pub open spec fn layout_map_counter() -> Seq<FieldDesc> {
    seq![
        FieldDesc { key: "scope", kind: FieldKind::U32, at: 0 },
        FieldDesc { key: "counterName", kind: FieldKind::U32, at: 4 },
        FieldDesc { key: "gpu_uuid", kind: FieldKind::Uuid, at: 8 },
        FieldDesc { key: "addr", kind: FieldKind::Hex64, at: 24 },
        FieldDesc { key: "rm_status", kind: FieldKind::I32, at: 32 },
    ]
}

fn layout_map_counter_vec() -> (r: Vec<FieldDesc>)
    ensures
        r@ == layout_map_counter(),
{
    vec![
        FieldDesc { key: "scope", kind: FieldKind::U32, at: 0 },
        FieldDesc { key: "counterName", kind: FieldKind::U32, at: 4 },
        FieldDesc { key: "gpu_uuid", kind: FieldKind::Uuid, at: 8 },
        FieldDesc { key: "addr", kind: FieldKind::Hex64, at: 24 },
        FieldDesc { key: "rm_status", kind: FieldKind::I32, at: 32 },
    ]
}

/// The members written for the parameter block (`UvmCreateEventQueueParams`, 40 bytes) of `UVM_CREATE_EVENT_QUEUE`.
pub open spec fn layout_create_event_queue() -> Seq<FieldDesc> {
    seq![
        FieldDesc { key: "eventQueueIndex", kind: FieldKind::U32, at: 0 },
        FieldDesc { key: "queueSize", kind: FieldKind::U64, at: 8 },
        FieldDesc { key: "notificationCount", kind: FieldKind::U64, at: 16 },
        FieldDesc { key: "notificationHandle", kind: FieldKind::U64, at: 24 },
        FieldDesc { key: "timeStampType", kind: FieldKind::U32, at: 32 },
        FieldDesc { key: "rm_status", kind: FieldKind::I32, at: 36 },
    ]
}

fn layout_create_event_queue_vec() -> (r: Vec<FieldDesc>)
    ensures
        r@ == layout_create_event_queue(),
{
    vec![
        FieldDesc { key: "eventQueueIndex", kind: FieldKind::U32, at: 0 },
        FieldDesc { key: "queueSize", kind: FieldKind::U64, at: 8 },
        FieldDesc { key: "notificationCount", kind: FieldKind::U64, at: 16 },
        FieldDesc { key: "notificationHandle", kind: FieldKind::U64, at: 24 },
        FieldDesc { key: "timeStampType", kind: FieldKind::U32, at: 32 },
        FieldDesc { key: "rm_status", kind: FieldKind::I32, at: 36 },
    ]
}

/// The members written for the parameter block (`UvmRemoveEventQueueParams`, 8 bytes) of `UVM_REMOVE_EVENT_QUEUE`.
pub open spec fn layout_remove_event_queue() -> Seq<FieldDesc> {
    seq![
        FieldDesc { key: "eventQueueIndex", kind: FieldKind::U32, at: 0 },
        FieldDesc { key: "rm_status", kind: FieldKind::I32, at: 4 },
    ]
}

fn layout_remove_event_queue_vec() -> (r: Vec<FieldDesc>)
    ensures
        r@ == layout_remove_event_queue(),
{
    vec![
        FieldDesc { key: "eventQueueIndex", kind: FieldKind::U32, at: 0 },
        FieldDesc { key: "rm_status", kind: FieldKind::I32, at: 4 },
    ]
}

/// The members written for the parameter block (`UvmMapEventQueueParams`, 56 bytes) of `UVM_MAP_EVENT_QUEUE`.
pub open spec fn layout_map_event_queue() -> Seq<FieldDesc> {
    seq![
        FieldDesc { key: "eventQueueIndex", kind: FieldKind::U32, at: 0 },
        FieldDesc { key: "userRODataAddr", kind: FieldKind::Hex64, at: 8 },
        FieldDesc { key: "userRWDataAddr", kind: FieldKind::Hex64, at: 16 },
        FieldDesc { key: "readIndexAddr", kind: FieldKind::Hex64, at: 24 },
        FieldDesc { key: "writeIndexAddr", kind: FieldKind::Hex64, at: 32 },
        FieldDesc { key: "queueBufferAddr", kind: FieldKind::Hex64, at: 40 },
        FieldDesc { key: "rm_status", kind: FieldKind::I32, at: 48 },
    ]
}

fn layout_map_event_queue_vec() -> (r: Vec<FieldDesc>)
    ensures
        r@ == layout_map_event_queue(),
{
    vec![
        FieldDesc { key: "eventQueueIndex", kind: FieldKind::U32, at: 0 },
        FieldDesc { key: "userRODataAddr", kind: FieldKind::Hex64, at: 8 },
        FieldDesc { key: "userRWDataAddr", kind: FieldKind::Hex64, at: 16 },
        FieldDesc { key: "readIndexAddr", kind: FieldKind::Hex64, at: 24 },
        FieldDesc { key: "writeIndexAddr", kind: FieldKind::Hex64, at: 32 },
        FieldDesc { key: "queueBufferAddr", kind: FieldKind::Hex64, at: 40 },
        FieldDesc { key: "rm_status", kind: FieldKind::I32, at: 48 },
    ]
}

/// The members written for the parameter block (`UvmEventCtrlParams`, 16 bytes) of `UVM_EVENT_CTRL`.
pub open spec fn layout_event_ctrl() -> Seq<FieldDesc> {
    seq![
        FieldDesc { key: "eventQueueIndex", kind: FieldKind::U32, at: 0 },
        FieldDesc { key: "eventType", kind: FieldKind::I32, at: 4 },
        FieldDesc { key: "enable", kind: FieldKind::U32, at: 8 },
        FieldDesc { key: "rm_status", kind: FieldKind::I32, at: 12 },
    ]
}

fn layout_event_ctrl_vec() -> (r: Vec<FieldDesc>)
    ensures
        r@ == layout_event_ctrl(),
{
    vec![
        FieldDesc { key: "eventQueueIndex", kind: FieldKind::U32, at: 0 },
        FieldDesc { key: "eventType", kind: FieldKind::I32, at: 4 },
        FieldDesc { key: "enable", kind: FieldKind::U32, at: 8 },
        FieldDesc { key: "rm_status", kind: FieldKind::I32, at: 12 },
    ]
}

/// The members written for the parameter block (`UvmGetGpuUuidTableParams`, 520 bytes) of `UVM_GET_GPU_UUID_TABLE`.
pub open spec fn layout_get_gpu_uuid_table() -> Seq<FieldDesc> {
    seq![
        FieldDesc { key: "validCount", kind: FieldKind::U32, at: 512 },
        FieldDesc { key: "gpuUuids", kind: FieldKind::List { elem: ElemKind::Uuid, count_at: 512, count_wide: false, max: 32 }, at: 0 },
        FieldDesc { key: "truncated", kind: FieldKind::Truncated { count_at: 512, count_wide: false, max: 32 }, at: 0 },
        FieldDesc { key: "rm_status", kind: FieldKind::I32, at: 516 },
    ]
}

fn layout_get_gpu_uuid_table_vec() -> (r: Vec<FieldDesc>)
    ensures
        r@ == layout_get_gpu_uuid_table(),
{
    vec![
        FieldDesc { key: "validCount", kind: FieldKind::U32, at: 512 },
        FieldDesc { key: "gpuUuids", kind: FieldKind::List { elem: ElemKind::Uuid, count_at: 512, count_wide: false, max: 32 }, at: 0 },
        FieldDesc { key: "truncated", kind: FieldKind::Truncated { count_at: 512, count_wide: false, max: 32 }, at: 0 },
        FieldDesc { key: "rm_status", kind: FieldKind::I32, at: 516 },
    ]
}

/// The members written for the parameter block (`UvmRegionSetBackingParams`, 48 bytes) of `UVM_REGION_SET_BACKING`.
pub open spec fn layout_region_set_backing() -> Seq<FieldDesc> {
    seq![
        FieldDesc { key: "gpu_uuid", kind: FieldKind::Uuid, at: 0 },
        FieldDesc { key: "hAllocation", kind: FieldKind::Hex32, at: 16 },
        FieldDesc { key: "vaAddr", kind: FieldKind::Hex64, at: 24 },
        FieldDesc { key: "regionLength", kind: FieldKind::U64, at: 32 },
        FieldDesc { key: "rm_status", kind: FieldKind::I32, at: 40 },
    ]
}

fn layout_region_set_backing_vec() -> (r: Vec<FieldDesc>)
    ensures
        r@ == layout_region_set_backing(),
{
    vec![
        FieldDesc { key: "gpu_uuid", kind: FieldKind::Uuid, at: 0 },
        FieldDesc { key: "hAllocation", kind: FieldKind::Hex32, at: 16 },
        FieldDesc { key: "vaAddr", kind: FieldKind::Hex64, at: 24 },
        FieldDesc { key: "regionLength", kind: FieldKind::U64, at: 32 },
        FieldDesc { key: "rm_status", kind: FieldKind::I32, at: 40 },
    ]
}

/// The members written for the parameter block (`UvmRegionUnsetBackingParams`, 24 bytes) of `UVM_REGION_UNSET_BACKING`.
pub open spec fn layout_region_unset_backing() -> Seq<FieldDesc> {
    seq![
        FieldDesc { key: "vaAddr", kind: FieldKind::Hex64, at: 0 },
        FieldDesc { key: "regionLength", kind: FieldKind::U64, at: 8 },
        FieldDesc { key: "rm_status", kind: FieldKind::I32, at: 16 },
    ]
}

fn layout_region_unset_backing_vec() -> (r: Vec<FieldDesc>)
    ensures
        r@ == layout_region_unset_backing(),
{
    vec![
        FieldDesc { key: "vaAddr", kind: FieldKind::Hex64, at: 0 },
        FieldDesc { key: "regionLength", kind: FieldKind::U64, at: 8 },
        FieldDesc { key: "rm_status", kind: FieldKind::I32, at: 16 },
    ]
}

/// The members written for the parameter block (`UvmCreateRangeGroupParams`, 16 bytes) of `UVM_CREATE_RANGE_GROUP`, `UVM_DESTROY_RANGE_GROUP`.
pub open spec fn layout_create_range_group() -> Seq<FieldDesc> {
    seq![
        FieldDesc { key: "rangeGroupId", kind: FieldKind::U64, at: 0 },
        FieldDesc { key: "rm_status", kind: FieldKind::I32, at: 8 },
    ]
}

fn layout_create_range_group_vec() -> (r: Vec<FieldDesc>)
    ensures
        r@ == layout_create_range_group(),
{
    vec![
        FieldDesc { key: "rangeGroupId", kind: FieldKind::U64, at: 0 },
        FieldDesc { key: "rm_status", kind: FieldKind::I32, at: 8 },
    ]
}

/// The members written for the parameter block (`UvmRegisterGpuVaspaceParams`, 32 bytes) of `UVM_REGISTER_GPU_VASPACE`.
pub open spec fn layout_register_gpu_vaspace() -> Seq<FieldDesc> {
    seq![
        FieldDesc { key: "gpu_uuid", kind: FieldKind::Uuid, at: 0 },
        FieldDesc { key: "rmCtrlFd", kind: FieldKind::I32, at: 16 },
        FieldDesc { key: "hClient", kind: FieldKind::Hex32, at: 20 },
        FieldDesc { key: "hVaSpace", kind: FieldKind::Hex32, at: 24 },
        FieldDesc { key: "rm_status", kind: FieldKind::I32, at: 28 },
    ]
}

fn layout_register_gpu_vaspace_vec() -> (r: Vec<FieldDesc>)
    ensures
        r@ == layout_register_gpu_vaspace(),
{
    vec![
        FieldDesc { key: "gpu_uuid", kind: FieldKind::Uuid, at: 0 },
        FieldDesc { key: "rmCtrlFd", kind: FieldKind::I32, at: 16 },
        FieldDesc { key: "hClient", kind: FieldKind::Hex32, at: 20 },
        FieldDesc { key: "hVaSpace", kind: FieldKind::Hex32, at: 24 },
        FieldDesc { key: "rm_status", kind: FieldKind::I32, at: 28 },
    ]
}

/// The members written for the parameter block (`UvmUnregisterGpuVaspaceParams`, 20 bytes) of `UVM_UNREGISTER_GPU_VASPACE`, `UVM_UNREGISTER_GPU`, `UVM_ENABLE_SYSTEM_WIDE_ATOMICS`, `UVM_DISABLE_SYSTEM_WIDE_ATOMICS`.
pub open spec fn layout_unregister_gpu_vaspace() -> Seq<FieldDesc> {
    seq![
        FieldDesc { key: "gpu_uuid", kind: FieldKind::Uuid, at: 0 },
        FieldDesc { key: "rm_status", kind: FieldKind::I32, at: 16 },
    ]
}

fn layout_unregister_gpu_vaspace_vec() -> (r: Vec<FieldDesc>)
    ensures
        r@ == layout_unregister_gpu_vaspace(),
{
    vec![
        FieldDesc { key: "gpu_uuid", kind: FieldKind::Uuid, at: 0 },
        FieldDesc { key: "rm_status", kind: FieldKind::I32, at: 16 },
    ]
}

/// The members written for the parameter block (`UvmRegisterChannelParams`, 56 bytes) of `UVM_REGISTER_CHANNEL`.
pub open spec fn layout_register_channel() -> Seq<FieldDesc> {
    seq![
        FieldDesc { key: "gpu_uuid", kind: FieldKind::Uuid, at: 0 },
        FieldDesc { key: "rmCtrlFd", kind: FieldKind::I32, at: 16 },
        FieldDesc { key: "hClient", kind: FieldKind::Hex32, at: 20 },
        FieldDesc { key: "hChannel", kind: FieldKind::Hex32, at: 24 },
        FieldDesc { key: "base", kind: FieldKind::Hex64, at: 32 },
        FieldDesc { key: "length", kind: FieldKind::U64, at: 40 },
        FieldDesc { key: "rm_status", kind: FieldKind::I32, at: 48 },
    ]
}

fn layout_register_channel_vec() -> (r: Vec<FieldDesc>)
    ensures
        r@ == layout_register_channel(),
{
    vec![
        FieldDesc { key: "gpu_uuid", kind: FieldKind::Uuid, at: 0 },
        FieldDesc { key: "rmCtrlFd", kind: FieldKind::I32, at: 16 },
        FieldDesc { key: "hClient", kind: FieldKind::Hex32, at: 20 },
        FieldDesc { key: "hChannel", kind: FieldKind::Hex32, at: 24 },
        FieldDesc { key: "base", kind: FieldKind::Hex64, at: 32 },
        FieldDesc { key: "length", kind: FieldKind::U64, at: 40 },
        FieldDesc { key: "rm_status", kind: FieldKind::I32, at: 48 },
    ]
}

/// The members written for the parameter block (`UvmUnregisterChannelParams`, 12 bytes) of `UVM_UNREGISTER_CHANNEL`.
pub open spec fn layout_unregister_channel() -> Seq<FieldDesc> {
    seq![
        FieldDesc { key: "hClient", kind: FieldKind::Hex32, at: 0 },
        FieldDesc { key: "hChannel", kind: FieldKind::Hex32, at: 4 },
        FieldDesc { key: "rm_status", kind: FieldKind::I32, at: 8 },
    ]
}

fn layout_unregister_channel_vec() -> (r: Vec<FieldDesc>)
    ensures
        r@ == layout_unregister_channel(),
{
    vec![
        FieldDesc { key: "hClient", kind: FieldKind::Hex32, at: 0 },
        FieldDesc { key: "hChannel", kind: FieldKind::Hex32, at: 4 },
        FieldDesc { key: "rm_status", kind: FieldKind::I32, at: 8 },
    ]
}

/// The members written for the parameter block (`UvmPeerAccessParams`, 36 bytes) of `UVM_ENABLE_PEER_ACCESS`, `UVM_DISABLE_PEER_ACCESS`.
pub open spec fn layout_enable_peer_access() -> Seq<FieldDesc> {
    seq![
        FieldDesc { key: "gpuUuidA", kind: FieldKind::Uuid, at: 0 },
        FieldDesc { key: "gpuUuidB", kind: FieldKind::Uuid, at: 16 },
        FieldDesc { key: "rm_status", kind: FieldKind::I32, at: 32 },
    ]
}

fn layout_enable_peer_access_vec() -> (r: Vec<FieldDesc>)
    ensures
        r@ == layout_enable_peer_access(),
{
    vec![
        FieldDesc { key: "gpuUuidA", kind: FieldKind::Uuid, at: 0 },
        FieldDesc { key: "gpuUuidB", kind: FieldKind::Uuid, at: 16 },
        FieldDesc { key: "rm_status", kind: FieldKind::I32, at: 32 },
    ]
}

/// The members written for the parameter block (`UvmSetRangeGroupParams`, 32 bytes) of `UVM_SET_RANGE_GROUP`.
pub open spec fn layout_set_range_group() -> Seq<FieldDesc> {
    seq![
        FieldDesc { key: "rangeGroupId", kind: FieldKind::U64, at: 0 },
        FieldDesc { key: "requestedBase", kind: FieldKind::Hex64, at: 8 },
        FieldDesc { key: "length", kind: FieldKind::U64, at: 16 },
        FieldDesc { key: "rm_status", kind: FieldKind::I32, at: 24 },
    ]
}

fn layout_set_range_group_vec() -> (r: Vec<FieldDesc>)
    ensures
        r@ == layout_set_range_group(),
{
    vec![
        FieldDesc { key: "rangeGroupId", kind: FieldKind::U64, at: 0 },
        FieldDesc { key: "requestedBase", kind: FieldKind::Hex64, at: 8 },
        FieldDesc { key: "length", kind: FieldKind::U64, at: 16 },
        FieldDesc { key: "rm_status", kind: FieldKind::I32, at: 24 },
    ]
}

/// The members written for the parameter block (`UvmMapExternalAllocationParams`, 9264 bytes) of `UVM_MAP_EXTERNAL_ALLOCATION`.
pub open spec fn layout_map_external_allocation() -> Seq<FieldDesc> {
    seq![
        FieldDesc { key: "base", kind: FieldKind::Hex64, at: 0 },
        FieldDesc { key: "length", kind: FieldKind::U64, at: 8 },
        FieldDesc { key: "offset", kind: FieldKind::U64, at: 16 },
        FieldDesc { key: "gpuAttributesCount", kind: FieldKind::U64, at: 9240 },
        FieldDesc { key: "perGpuAttributes", kind: FieldKind::List { elem: ElemKind::GpuAttributes, count_at: 9240, count_wide: true, max: 256 }, at: 24 },
        FieldDesc { key: "truncated", kind: FieldKind::Truncated { count_at: 9240, count_wide: true, max: 256 }, at: 0 },
        FieldDesc { key: "rmCtrlFd", kind: FieldKind::I32, at: 9248 },
        FieldDesc { key: "hClient", kind: FieldKind::Hex32, at: 9252 },
        FieldDesc { key: "hMemory", kind: FieldKind::Hex32, at: 9256 },
        FieldDesc { key: "rm_status", kind: FieldKind::I32, at: 9260 },
    ]
}

fn layout_map_external_allocation_vec() -> (r: Vec<FieldDesc>)
    ensures
        r@ == layout_map_external_allocation(),
{
    vec![
        FieldDesc { key: "base", kind: FieldKind::Hex64, at: 0 },
        FieldDesc { key: "length", kind: FieldKind::U64, at: 8 },
        FieldDesc { key: "offset", kind: FieldKind::U64, at: 16 },
        FieldDesc { key: "gpuAttributesCount", kind: FieldKind::U64, at: 9240 },
        FieldDesc { key: "perGpuAttributes", kind: FieldKind::List { elem: ElemKind::GpuAttributes, count_at: 9240, count_wide: true, max: 256 }, at: 24 },
        FieldDesc { key: "truncated", kind: FieldKind::Truncated { count_at: 9240, count_wide: true, max: 256 }, at: 0 },
        FieldDesc { key: "rmCtrlFd", kind: FieldKind::I32, at: 9248 },
        FieldDesc { key: "hClient", kind: FieldKind::Hex32, at: 9252 },
        FieldDesc { key: "hMemory", kind: FieldKind::Hex32, at: 9256 },
        FieldDesc { key: "rm_status", kind: FieldKind::I32, at: 9260 },
    ]
}

/// The members written for the parameter block (`UvmFreeParams`, 16 bytes) of `UVM_FREE`.
pub open spec fn layout_free() -> Seq<FieldDesc> {
    seq![
        FieldDesc { key: "base", kind: FieldKind::Hex64, at: 0 },
        FieldDesc { key: "rm_status", kind: FieldKind::I32, at: 8 },
    ]
}

fn layout_free_vec() -> (r: Vec<FieldDesc>)
    ensures
        r@ == layout_free(),
{
    vec![
        FieldDesc { key: "base", kind: FieldKind::Hex64, at: 0 },
        FieldDesc { key: "rm_status", kind: FieldKind::I32, at: 8 },
    ]
}

/// The members written for the parameter block (`UvmMemMapParams`, 24 bytes) of `UVM_MEM_MAP`.
pub open spec fn layout_mem_map() -> Seq<FieldDesc> {
    seq![
        FieldDesc { key: "regionBase", kind: FieldKind::Hex64, at: 0 },
        FieldDesc { key: "regionLength", kind: FieldKind::U64, at: 8 },
        FieldDesc { key: "rm_status", kind: FieldKind::I32, at: 16 },
    ]
}

fn layout_mem_map_vec() -> (r: Vec<FieldDesc>)
    ensures
        r@ == layout_mem_map(),
{
    vec![
        FieldDesc { key: "regionBase", kind: FieldKind::Hex64, at: 0 },
        FieldDesc { key: "regionLength", kind: FieldKind::U64, at: 8 },
        FieldDesc { key: "rm_status", kind: FieldKind::I32, at: 16 },
    ]
}

/// The members written for the parameter block (`UvmRegisterGpuParams`, 40 bytes) of `UVM_REGISTER_GPU`.
pub open spec fn layout_register_gpu() -> Seq<FieldDesc> {
    seq![
        FieldDesc { key: "gpu_uuid", kind: FieldKind::Uuid, at: 0 },
        FieldDesc { key: "numaEnabled", kind: FieldKind::Flag8, at: 16 },
        FieldDesc { key: "numaNodeId", kind: FieldKind::I32, at: 20 },
        FieldDesc { key: "rmCtrlFd", kind: FieldKind::I32, at: 24 },
        FieldDesc { key: "hClient", kind: FieldKind::Hex32, at: 28 },
        FieldDesc { key: "hSmcPartRef", kind: FieldKind::Hex32, at: 32 },
        FieldDesc { key: "rm_status", kind: FieldKind::I32, at: 36 },
    ]
}

fn layout_register_gpu_vec() -> (r: Vec<FieldDesc>)
    ensures
        r@ == layout_register_gpu(),
{
    vec![
        FieldDesc { key: "gpu_uuid", kind: FieldKind::Uuid, at: 0 },
        FieldDesc { key: "numaEnabled", kind: FieldKind::Flag8, at: 16 },
        FieldDesc { key: "numaNodeId", kind: FieldKind::I32, at: 20 },
        FieldDesc { key: "rmCtrlFd", kind: FieldKind::I32, at: 24 },
        FieldDesc { key: "hClient", kind: FieldKind::Hex32, at: 28 },
        FieldDesc { key: "hSmcPartRef", kind: FieldKind::Hex32, at: 32 },
        FieldDesc { key: "rm_status", kind: FieldKind::I32, at: 36 },
    ]
}

/// The members written for the parameter block (`UvmPageableMemAccessParams`, 8 bytes) of `UVM_PAGEABLE_MEM_ACCESS`.
pub open spec fn layout_pageable_mem_access() -> Seq<FieldDesc> {
    seq![
        FieldDesc { key: "pageableMemAccess", kind: FieldKind::Flag8, at: 0 },
        FieldDesc { key: "rm_status", kind: FieldKind::I32, at: 4 },
    ]
}

fn layout_pageable_mem_access_vec() -> (r: Vec<FieldDesc>)
    ensures
        r@ == layout_pageable_mem_access(),
{
    vec![
        FieldDesc { key: "pageableMemAccess", kind: FieldKind::Flag8, at: 0 },
        FieldDesc { key: "rm_status", kind: FieldKind::I32, at: 4 },
    ]
}

/// The members written for the parameter block (`UvmRangeGroupsParams`, 272 bytes) of `UVM_PREVENT_MIGRATION_RANGE_GROUPS`, `UVM_ALLOW_MIGRATION_RANGE_GROUPS`.
pub open spec fn layout_prevent_migration_range_groups() -> Seq<FieldDesc> {
    seq![
        FieldDesc { key: "numGroupIds", kind: FieldKind::U64, at: 256 },
        FieldDesc { key: "rangeGroupIds", kind: FieldKind::List { elem: ElemKind::U64, count_at: 256, count_wide: true, max: 32 }, at: 0 },
        FieldDesc { key: "truncated", kind: FieldKind::Truncated { count_at: 256, count_wide: true, max: 32 }, at: 0 },
        FieldDesc { key: "rm_status", kind: FieldKind::I32, at: 264 },
    ]
}

fn layout_prevent_migration_range_groups_vec() -> (r: Vec<FieldDesc>)
    ensures
        r@ == layout_prevent_migration_range_groups(),
{
    vec![
        FieldDesc { key: "numGroupIds", kind: FieldKind::U64, at: 256 },
        FieldDesc { key: "rangeGroupIds", kind: FieldKind::List { elem: ElemKind::U64, count_at: 256, count_wide: true, max: 32 }, at: 0 },
        FieldDesc { key: "truncated", kind: FieldKind::Truncated { count_at: 256, count_wide: true, max: 32 }, at: 0 },
        FieldDesc { key: "rm_status", kind: FieldKind::I32, at: 264 },
    ]
}

/// The members written for the parameter block (`UvmSetPreferredLocationParams`, 40 bytes) of `UVM_SET_PREFERRED_LOCATION`.
pub open spec fn layout_set_preferred_location() -> Seq<FieldDesc> {
    seq![
        FieldDesc { key: "requestedBase", kind: FieldKind::Hex64, at: 0 },
        FieldDesc { key: "length", kind: FieldKind::U64, at: 8 },
        FieldDesc { key: "preferredLocation", kind: FieldKind::Uuid, at: 16 },
        FieldDesc { key: "preferredCpuNumaNode", kind: FieldKind::I32, at: 32 },
        FieldDesc { key: "rm_status", kind: FieldKind::I32, at: 36 },
    ]
}

fn layout_set_preferred_location_vec() -> (r: Vec<FieldDesc>)
    ensures
        r@ == layout_set_preferred_location(),
{
    vec![
        FieldDesc { key: "requestedBase", kind: FieldKind::Hex64, at: 0 },
        FieldDesc { key: "length", kind: FieldKind::U64, at: 8 },
        FieldDesc { key: "preferredLocation", kind: FieldKind::Uuid, at: 16 },
        FieldDesc { key: "preferredCpuNumaNode", kind: FieldKind::I32, at: 32 },
        FieldDesc { key: "rm_status", kind: FieldKind::I32, at: 36 },
    ]
}

/// The members written for the parameter block (`UvmSetAccessedByParams`, 40 bytes) of `UVM_SET_ACCESSED_BY`, `UVM_UNSET_ACCESSED_BY`.
pub open spec fn layout_set_accessed_by() -> Seq<FieldDesc> {
    seq![
        FieldDesc { key: "requestedBase", kind: FieldKind::Hex64, at: 0 },
        FieldDesc { key: "length", kind: FieldKind::U64, at: 8 },
        FieldDesc { key: "accessedByUuid", kind: FieldKind::Uuid, at: 16 },
        FieldDesc { key: "rm_status", kind: FieldKind::I32, at: 32 },
    ]
}

fn layout_set_accessed_by_vec() -> (r: Vec<FieldDesc>)
    ensures
        r@ == layout_set_accessed_by(),
{
    vec![
        FieldDesc { key: "requestedBase", kind: FieldKind::Hex64, at: 0 },
        FieldDesc { key: "length", kind: FieldKind::U64, at: 8 },
        FieldDesc { key: "accessedByUuid", kind: FieldKind::Uuid, at: 16 },
        FieldDesc { key: "rm_status", kind: FieldKind::I32, at: 32 },
    ]
}

/// The members written for the parameter block (`UvmMigrateParams`, 80 bytes) of `UVM_MIGRATE`.
pub open spec fn layout_migrate() -> Seq<FieldDesc> {
    seq![
        FieldDesc { key: "base", kind: FieldKind::Hex64, at: 0 },
        FieldDesc { key: "length", kind: FieldKind::U64, at: 8 },
        FieldDesc { key: "destinationUuid", kind: FieldKind::Uuid, at: 16 },
        FieldDesc { key: "flags", kind: FieldKind::Hex32, at: 32 },
        FieldDesc { key: "semaphoreAddress", kind: FieldKind::Hex64, at: 40 },
        FieldDesc { key: "semaphorePayload", kind: FieldKind::U32, at: 48 },
        FieldDesc { key: "cpuNumaNode", kind: FieldKind::I32, at: 52 },
        FieldDesc { key: "userSpaceStart", kind: FieldKind::Hex64, at: 56 },
        FieldDesc { key: "userSpaceLength", kind: FieldKind::U64, at: 64 },
        FieldDesc { key: "rm_status", kind: FieldKind::I32, at: 72 },
    ]
}

fn layout_migrate_vec() -> (r: Vec<FieldDesc>)
    ensures
        r@ == layout_migrate(),
{
    vec![
        FieldDesc { key: "base", kind: FieldKind::Hex64, at: 0 },
        FieldDesc { key: "length", kind: FieldKind::U64, at: 8 },
        FieldDesc { key: "destinationUuid", kind: FieldKind::Uuid, at: 16 },
        FieldDesc { key: "flags", kind: FieldKind::Hex32, at: 32 },
        FieldDesc { key: "semaphoreAddress", kind: FieldKind::Hex64, at: 40 },
        FieldDesc { key: "semaphorePayload", kind: FieldKind::U32, at: 48 },
        FieldDesc { key: "cpuNumaNode", kind: FieldKind::I32, at: 52 },
        FieldDesc { key: "userSpaceStart", kind: FieldKind::Hex64, at: 56 },
        FieldDesc { key: "userSpaceLength", kind: FieldKind::U64, at: 64 },
        FieldDesc { key: "rm_status", kind: FieldKind::I32, at: 72 },
    ]
}

/// The members written for the parameter block (`UvmMigrateRangeGroupParams`, 32 bytes) of `UVM_MIGRATE_RANGE_GROUP`.
pub open spec fn layout_migrate_range_group() -> Seq<FieldDesc> {
    seq![
        FieldDesc { key: "rangeGroupId", kind: FieldKind::U64, at: 0 },
        FieldDesc { key: "destinationUuid", kind: FieldKind::Uuid, at: 8 },
        FieldDesc { key: "rm_status", kind: FieldKind::I32, at: 24 },
    ]
}

fn layout_migrate_range_group_vec() -> (r: Vec<FieldDesc>)
    ensures
        r@ == layout_migrate_range_group(),
{
    vec![
        FieldDesc { key: "rangeGroupId", kind: FieldKind::U64, at: 0 },
        FieldDesc { key: "destinationUuid", kind: FieldKind::Uuid, at: 8 },
        FieldDesc { key: "rm_status", kind: FieldKind::I32, at: 24 },
    ]
}

/// The members written for the parameter block (`UvmToolsInitEventTrackerParams`, 56 bytes) of `UVM_TOOLS_INIT_EVENT_TRACKER`, `UVM_TOOLS_INIT_EVENT_TRACKER_V2`.
pub open spec fn layout_tools_init_event_tracker() -> Seq<FieldDesc> {
    seq![
        FieldDesc { key: "queueBuffer", kind: FieldKind::Hex64, at: 0 },
        FieldDesc { key: "queueBufferSize", kind: FieldKind::U64, at: 8 },
        FieldDesc { key: "controlBuffer", kind: FieldKind::Hex64, at: 16 },
        FieldDesc { key: "processor", kind: FieldKind::Uuid, at: 24 },
        FieldDesc { key: "allProcessors", kind: FieldKind::U32, at: 40 },
        FieldDesc { key: "uvmFd", kind: FieldKind::U32, at: 44 },
        FieldDesc { key: "rm_status", kind: FieldKind::I32, at: 48 },
    ]
}

fn layout_tools_init_event_tracker_vec() -> (r: Vec<FieldDesc>)
    ensures
        r@ == layout_tools_init_event_tracker(),
{
    vec![
        FieldDesc { key: "queueBuffer", kind: FieldKind::Hex64, at: 0 },
        FieldDesc { key: "queueBufferSize", kind: FieldKind::U64, at: 8 },
        FieldDesc { key: "controlBuffer", kind: FieldKind::Hex64, at: 16 },
        FieldDesc { key: "processor", kind: FieldKind::Uuid, at: 24 },
        FieldDesc { key: "allProcessors", kind: FieldKind::U32, at: 40 },
        FieldDesc { key: "uvmFd", kind: FieldKind::U32, at: 44 },
        FieldDesc { key: "rm_status", kind: FieldKind::I32, at: 48 },
    ]
}

/// The members written for the parameter block (`UvmToolsSetNotificationThresholdParams`, 8 bytes) of `UVM_TOOLS_SET_NOTIFICATION_THRESHOLD`.
pub open spec fn layout_tools_set_notification_threshold() -> Seq<FieldDesc> {
    seq![
        FieldDesc { key: "notificationThreshold", kind: FieldKind::U32, at: 0 },
        FieldDesc { key: "rm_status", kind: FieldKind::I32, at: 4 },
    ]
}

fn layout_tools_set_notification_threshold_vec() -> (r: Vec<FieldDesc>)
    ensures
        r@ == layout_tools_set_notification_threshold(),
{
    vec![
        FieldDesc { key: "notificationThreshold", kind: FieldKind::U32, at: 0 },
        FieldDesc { key: "rm_status", kind: FieldKind::I32, at: 4 },
    ]
}

/// The members written for the parameter block (`UvmToolsFlagsParams`, 16 bytes) of `UVM_TOOLS_EVENT_QUEUE_ENABLE_EVENTS`, `UVM_TOOLS_EVENT_QUEUE_DISABLE_EVENTS`.
pub open spec fn layout_tools_event_queue_enable_events() -> Seq<FieldDesc> {
    seq![
        FieldDesc { key: "eventTypeFlags", kind: FieldKind::Hex64, at: 0 },
        FieldDesc { key: "rm_status", kind: FieldKind::I32, at: 8 },
    ]
}

fn layout_tools_event_queue_enable_events_vec() -> (r: Vec<FieldDesc>)
    ensures
        r@ == layout_tools_event_queue_enable_events(),
{
    vec![
        FieldDesc { key: "eventTypeFlags", kind: FieldKind::Hex64, at: 0 },
        FieldDesc { key: "rm_status", kind: FieldKind::I32, at: 8 },
    ]
}

/// The members written for the parameter block (`UvmToolsFlagsParams`, 16 bytes) of `UVM_TOOLS_ENABLE_COUNTERS`, `UVM_TOOLS_DISABLE_COUNTERS`.
pub open spec fn layout_tools_enable_counters() -> Seq<FieldDesc> {
    seq![
        FieldDesc { key: "counterTypeFlags", kind: FieldKind::Hex64, at: 0 },
        FieldDesc { key: "rm_status", kind: FieldKind::I32, at: 8 },
    ]
}

fn layout_tools_enable_counters_vec() -> (r: Vec<FieldDesc>)
    ensures
        r@ == layout_tools_enable_counters(),
{
    vec![
        FieldDesc { key: "counterTypeFlags", kind: FieldKind::Hex64, at: 0 },
        FieldDesc { key: "rm_status", kind: FieldKind::I32, at: 8 },
    ]
}

/// The members written for the parameter block (`UvmToolsReadProcessMemoryParams`, 40 bytes) of `UVM_TOOLS_READ_PROCESS_MEMORY`.
pub open spec fn layout_tools_read_process_memory() -> Seq<FieldDesc> {
    seq![
        FieldDesc { key: "buffer", kind: FieldKind::Hex64, at: 0 },
        FieldDesc { key: "size", kind: FieldKind::U64, at: 8 },
        FieldDesc { key: "targetVa", kind: FieldKind::Hex64, at: 16 },
        FieldDesc { key: "bytesRead", kind: FieldKind::U64, at: 24 },
        FieldDesc { key: "rm_status", kind: FieldKind::I32, at: 32 },
    ]
}

fn layout_tools_read_process_memory_vec() -> (r: Vec<FieldDesc>)
    ensures
        r@ == layout_tools_read_process_memory(),
{
    vec![
        FieldDesc { key: "buffer", kind: FieldKind::Hex64, at: 0 },
        FieldDesc { key: "size", kind: FieldKind::U64, at: 8 },
        FieldDesc { key: "targetVa", kind: FieldKind::Hex64, at: 16 },
        FieldDesc { key: "bytesRead", kind: FieldKind::U64, at: 24 },
        FieldDesc { key: "rm_status", kind: FieldKind::I32, at: 32 },
    ]
}

/// The members written for the parameter block (`UvmToolsWriteProcessMemoryParams`, 40 bytes) of `UVM_TOOLS_WRITE_PROCESS_MEMORY`.
pub open spec fn layout_tools_write_process_memory() -> Seq<FieldDesc> {
    seq![
        FieldDesc { key: "buffer", kind: FieldKind::Hex64, at: 0 },
        FieldDesc { key: "size", kind: FieldKind::U64, at: 8 },
        FieldDesc { key: "targetVa", kind: FieldKind::Hex64, at: 16 },
        FieldDesc { key: "bytesWritten", kind: FieldKind::U64, at: 24 },
        FieldDesc { key: "rm_status", kind: FieldKind::I32, at: 32 },
    ]
}

fn layout_tools_write_process_memory_vec() -> (r: Vec<FieldDesc>)
    ensures
        r@ == layout_tools_write_process_memory(),
{
    vec![
        FieldDesc { key: "buffer", kind: FieldKind::Hex64, at: 0 },
        FieldDesc { key: "size", kind: FieldKind::U64, at: 8 },
        FieldDesc { key: "targetVa", kind: FieldKind::Hex64, at: 16 },
        FieldDesc { key: "bytesWritten", kind: FieldKind::U64, at: 24 },
        FieldDesc { key: "rm_status", kind: FieldKind::I32, at: 32 },
    ]
}

/// The members written for the parameter block (`UvmToolsGetProcessorUuidTableParams`, 16 bytes) of `UVM_TOOLS_GET_PROCESSOR_UUID_TABLE`, `UVM_TOOLS_GET_PROCESSOR_UUID_TABLE_V2`.
pub open spec fn layout_tools_get_processor_uuid_table() -> Seq<FieldDesc> {
    seq![
        FieldDesc { key: "tablePtr", kind: FieldKind::Hex64, at: 0 },
        FieldDesc { key: "rm_status", kind: FieldKind::I32, at: 8 },
    ]
}

fn layout_tools_get_processor_uuid_table_vec() -> (r: Vec<FieldDesc>)
    ensures
        r@ == layout_tools_get_processor_uuid_table(),
{
    vec![
        FieldDesc { key: "tablePtr", kind: FieldKind::Hex64, at: 0 },
        FieldDesc { key: "rm_status", kind: FieldKind::I32, at: 8 },
    ]
}

/// The members written for the parameter block (`UvmBaseLengthGpuUuidParams`, 40 bytes) of `UVM_MAP_DYNAMIC_PARALLELISM_REGION`, `UVM_UNMAP_EXTERNAL`, `UVM_MAP_EXTERNAL_SPARSE`.
pub open spec fn layout_map_dynamic_parallelism_region() -> Seq<FieldDesc> {
    seq![
        FieldDesc { key: "base", kind: FieldKind::Hex64, at: 0 },
        FieldDesc { key: "length", kind: FieldKind::U64, at: 8 },
        FieldDesc { key: "gpu_uuid", kind: FieldKind::Uuid, at: 16 },
        FieldDesc { key: "rm_status", kind: FieldKind::I32, at: 32 },
    ]
}

fn layout_map_dynamic_parallelism_region_vec() -> (r: Vec<FieldDesc>)
    ensures
        r@ == layout_map_dynamic_parallelism_region(),
{
    vec![
        FieldDesc { key: "base", kind: FieldKind::Hex64, at: 0 },
        FieldDesc { key: "length", kind: FieldKind::U64, at: 8 },
        FieldDesc { key: "gpu_uuid", kind: FieldKind::Uuid, at: 16 },
        FieldDesc { key: "rm_status", kind: FieldKind::I32, at: 32 },
    ]
}

/// The members written for the parameter block (`UvmStatusParams`, 4 bytes) of `UVM_TOOLS_FLUSH_EVENTS`, `UVM_CLEAN_UP_ZOMBIE_RESOURCES`, `UVM_CLEAR_ALL_ACCESS_COUNTERS`.
pub open spec fn layout_tools_flush_events() -> Seq<FieldDesc> {
    seq![
        FieldDesc { key: "rm_status", kind: FieldKind::I32, at: 0 },
    ]
}

fn layout_tools_flush_events_vec() -> (r: Vec<FieldDesc>)
    ensures
        r@ == layout_tools_flush_events(),
{
    vec![
        FieldDesc { key: "rm_status", kind: FieldKind::I32, at: 0 },
    ]
}

/// The members written for the parameter block (`UvmAllocSemaphorePoolParams`, 9248 bytes) of `UVM_ALLOC_SEMAPHORE_POOL`.
pub open spec fn layout_alloc_semaphore_pool() -> Seq<FieldDesc> {
    seq![
        FieldDesc { key: "base", kind: FieldKind::Hex64, at: 0 },
        FieldDesc { key: "length", kind: FieldKind::U64, at: 8 },
        FieldDesc { key: "gpuAttributesCount", kind: FieldKind::U64, at: 9232 },
        FieldDesc { key: "perGpuAttributes", kind: FieldKind::List { elem: ElemKind::GpuAttributes, count_at: 9232, count_wide: true, max: 256 }, at: 16 },
        FieldDesc { key: "truncated", kind: FieldKind::Truncated { count_at: 9232, count_wide: true, max: 256 }, at: 0 },
        FieldDesc { key: "rm_status", kind: FieldKind::I32, at: 9240 },
    ]
}

fn layout_alloc_semaphore_pool_vec() -> (r: Vec<FieldDesc>)
    ensures
        r@ == layout_alloc_semaphore_pool(),
{
    vec![
        FieldDesc { key: "base", kind: FieldKind::Hex64, at: 0 },
        FieldDesc { key: "length", kind: FieldKind::U64, at: 8 },
        FieldDesc { key: "gpuAttributesCount", kind: FieldKind::U64, at: 9232 },
        FieldDesc { key: "perGpuAttributes", kind: FieldKind::List { elem: ElemKind::GpuAttributes, count_at: 9232, count_wide: true, max: 256 }, at: 16 },
        FieldDesc { key: "truncated", kind: FieldKind::Truncated { count_at: 9232, count_wide: true, max: 256 }, at: 0 },
        FieldDesc { key: "rm_status", kind: FieldKind::I32, at: 9240 },
    ]
}

/// The members written for the parameter block (`UvmPageableMemAccessOnGpuParams`, 24 bytes) of `UVM_PAGEABLE_MEM_ACCESS_ON_GPU`.
pub open spec fn layout_pageable_mem_access_on_gpu() -> Seq<FieldDesc> {
    seq![
        FieldDesc { key: "gpu_uuid", kind: FieldKind::Uuid, at: 0 },
        FieldDesc { key: "pageableMemAccess", kind: FieldKind::Flag8, at: 16 },
        FieldDesc { key: "rm_status", kind: FieldKind::I32, at: 20 },
    ]
}

fn layout_pageable_mem_access_on_gpu_vec() -> (r: Vec<FieldDesc>)
    ensures
        r@ == layout_pageable_mem_access_on_gpu(),
{
    vec![
        FieldDesc { key: "gpu_uuid", kind: FieldKind::Uuid, at: 0 },
        FieldDesc { key: "pageableMemAccess", kind: FieldKind::Flag8, at: 16 },
        FieldDesc { key: "rm_status", kind: FieldKind::I32, at: 20 },
    ]
}

/// The members written for the parameter block (`UvmPopulatePageableParams`, 24 bytes) of `UVM_POPULATE_PAGEABLE`.
pub open spec fn layout_populate_pageable() -> Seq<FieldDesc> {
    seq![
        FieldDesc { key: "base", kind: FieldKind::Hex64, at: 0 },
        FieldDesc { key: "length", kind: FieldKind::U64, at: 8 },
        FieldDesc { key: "flags", kind: FieldKind::Hex32, at: 16 },
        FieldDesc { key: "rm_status", kind: FieldKind::I32, at: 20 },
    ]
}

fn layout_populate_pageable_vec() -> (r: Vec<FieldDesc>)
    ensures
        r@ == layout_populate_pageable(),
{
    vec![
        FieldDesc { key: "base", kind: FieldKind::Hex64, at: 0 },
        FieldDesc { key: "length", kind: FieldKind::U64, at: 8 },
        FieldDesc { key: "flags", kind: FieldKind::Hex32, at: 16 },
        FieldDesc { key: "rm_status", kind: FieldKind::I32, at: 20 },
    ]
}

/// The members written for the parameter block (`UvmValidateVaRangeParams`, 24 bytes) of `UVM_VALIDATE_VA_RANGE`, `UVM_CREATE_EXTERNAL_RANGE`.
pub open spec fn layout_validate_va_range() -> Seq<FieldDesc> {
    seq![
        FieldDesc { key: "base", kind: FieldKind::Hex64, at: 0 },
        FieldDesc { key: "length", kind: FieldKind::U64, at: 8 },
        FieldDesc { key: "rm_status", kind: FieldKind::I32, at: 16 },
    ]
}

fn layout_validate_va_range_vec() -> (r: Vec<FieldDesc>)
    ensures
        r@ == layout_validate_va_range(),
{
    vec![
        FieldDesc { key: "base", kind: FieldKind::Hex64, at: 0 },
        FieldDesc { key: "length", kind: FieldKind::U64, at: 8 },
        FieldDesc { key: "rm_status", kind: FieldKind::I32, at: 16 },
    ]
}

/// The members written for the parameter block (`UvmMmInitializeParams`, 8 bytes) of `UVM_MM_INITIALIZE`.
pub open spec fn layout_mm_initialize() -> Seq<FieldDesc> {
    seq![
        FieldDesc { key: "uvmFd", kind: FieldKind::I32, at: 0 },
        FieldDesc { key: "rm_status", kind: FieldKind::I32, at: 4 },
    ]
}

fn layout_mm_initialize_vec() -> (r: Vec<FieldDesc>)
    ensures
        r@ == layout_mm_initialize(),
{
    vec![
        FieldDesc { key: "uvmFd", kind: FieldKind::I32, at: 0 },
        FieldDesc { key: "rm_status", kind: FieldKind::I32, at: 4 },
    ]
}

/// The members written for the parameter block (`UvmAllocDeviceP2pParams`, 56 bytes) of `UVM_ALLOC_DEVICE_P2P`.
pub open spec fn layout_alloc_device_p2p() -> Seq<FieldDesc> {
    seq![
        FieldDesc { key: "base", kind: FieldKind::Hex64, at: 0 },
        FieldDesc { key: "length", kind: FieldKind::U64, at: 8 },
        FieldDesc { key: "offset", kind: FieldKind::U64, at: 16 },
        FieldDesc { key: "gpu_uuid", kind: FieldKind::Uuid, at: 24 },
        FieldDesc { key: "rmCtrlFd", kind: FieldKind::I32, at: 40 },
        FieldDesc { key: "hClient", kind: FieldKind::Hex32, at: 44 },
        FieldDesc { key: "hMemory", kind: FieldKind::Hex32, at: 48 },
        FieldDesc { key: "rm_status", kind: FieldKind::I32, at: 52 },
    ]
}

fn layout_alloc_device_p2p_vec() -> (r: Vec<FieldDesc>)
    ensures
        r@ == layout_alloc_device_p2p(),
{
    vec![
        FieldDesc { key: "base", kind: FieldKind::Hex64, at: 0 },
        FieldDesc { key: "length", kind: FieldKind::U64, at: 8 },
        FieldDesc { key: "offset", kind: FieldKind::U64, at: 16 },
        FieldDesc { key: "gpu_uuid", kind: FieldKind::Uuid, at: 24 },
        FieldDesc { key: "rmCtrlFd", kind: FieldKind::I32, at: 40 },
        FieldDesc { key: "hClient", kind: FieldKind::Hex32, at: 44 },
        FieldDesc { key: "hMemory", kind: FieldKind::Hex32, at: 48 },
        FieldDesc { key: "rm_status", kind: FieldKind::I32, at: 52 },
    ]
}

/// The members written for the parameter block (`UvmDiscardParams`, 32 bytes) of `UVM_DISCARD`.
pub open spec fn layout_discard() -> Seq<FieldDesc> {
    seq![
        FieldDesc { key: "base", kind: FieldKind::Hex64, at: 0 },
        FieldDesc { key: "length", kind: FieldKind::U64, at: 8 },
        FieldDesc { key: "flags", kind: FieldKind::Hex64, at: 16 },
        FieldDesc { key: "rm_status", kind: FieldKind::I32, at: 24 },
    ]
}

fn layout_discard_vec() -> (r: Vec<FieldDesc>)
    ensures
        r@ == layout_discard(),
{
    vec![
        FieldDesc { key: "base", kind: FieldKind::Hex64, at: 0 },
        FieldDesc { key: "length", kind: FieldKind::U64, at: 8 },
        FieldDesc { key: "flags", kind: FieldKind::Hex64, at: 16 },
        FieldDesc { key: "rm_status", kind: FieldKind::I32, at: 24 },
    ]
}

/// The members written for the parameter block (`UvmIs8SupportedParams`, 8 bytes) of `UVM_IS_8_SUPPORTED`.
pub open spec fn layout_is8_supported() -> Seq<FieldDesc> {
    seq![
        FieldDesc { key: "is8Supported", kind: FieldKind::Flag32, at: 0 },
        FieldDesc { key: "rm_status", kind: FieldKind::I32, at: 4 },
    ]
}

fn layout_is8_supported_vec() -> (r: Vec<FieldDesc>)
    ensures
        r@ == layout_is8_supported(),
{
    vec![
        FieldDesc { key: "is8Supported", kind: FieldKind::Flag32, at: 0 },
        FieldDesc { key: "rm_status", kind: FieldKind::I32, at: 4 },
    ]
}

/// For a command that has a decoder: the size of its parameter block and the members written.
pub open spec fn uvm_params(cmd: u64) -> Option<(nat, Seq<FieldDesc>)> {
    match normalized(cmd) {
        UVM_INITIALIZE => Some((16, layout_initialize())),
        UVM_RESERVE_VA => Some((24, layout_reserve_va())),
        UVM_RELEASE_VA => Some((24, layout_reserve_va())),
        UVM_REGION_COMMIT => Some((48, layout_region_commit())),
        UVM_REGION_DECOMMIT => Some((24, layout_reserve_va())),
        UVM_REGION_SET_STREAM => Some((48, layout_region_set_stream())),
        UVM_SET_STREAM_RUNNING => Some((16, layout_set_stream_running())),
        UVM_SET_STREAM_STOPPED => Some((272, layout_set_stream_stopped())),
        UVM_ADD_SESSION => Some((8, layout_add_session())),
        UVM_ENABLE_COUNTERS => Some((904, layout_enable_counters())),
        UVM_MAP_COUNTER => Some((40, layout_map_counter())),
        UVM_CREATE_EVENT_QUEUE => Some((40, layout_create_event_queue())),
        UVM_REMOVE_EVENT_QUEUE => Some((8, layout_remove_event_queue())),
        UVM_MAP_EVENT_QUEUE => Some((56, layout_map_event_queue())),
        UVM_EVENT_CTRL => Some((16, layout_event_ctrl())),
        UVM_GET_GPU_UUID_TABLE => Some((520, layout_get_gpu_uuid_table())),
        UVM_REGION_SET_BACKING => Some((48, layout_region_set_backing())),
        UVM_REGION_UNSET_BACKING => Some((24, layout_region_unset_backing())),
        UVM_CREATE_RANGE_GROUP => Some((16, layout_create_range_group())),
        UVM_DESTROY_RANGE_GROUP => Some((16, layout_create_range_group())),
        UVM_REGISTER_GPU_VASPACE => Some((32, layout_register_gpu_vaspace())),
        UVM_UNREGISTER_GPU_VASPACE => Some((20, layout_unregister_gpu_vaspace())),
        UVM_REGISTER_CHANNEL => Some((56, layout_register_channel())),
        UVM_UNREGISTER_CHANNEL => Some((12, layout_unregister_channel())),
        UVM_ENABLE_PEER_ACCESS => Some((36, layout_enable_peer_access())),
        UVM_DISABLE_PEER_ACCESS => Some((36, layout_enable_peer_access())),
        UVM_SET_RANGE_GROUP => Some((32, layout_set_range_group())),
        UVM_MAP_EXTERNAL_ALLOCATION => Some((9264, layout_map_external_allocation())),
        UVM_FREE => Some((16, layout_free())),
        UVM_MEM_MAP => Some((24, layout_mem_map())),
        UVM_REGISTER_GPU => Some((40, layout_register_gpu())),
        UVM_UNREGISTER_GPU => Some((20, layout_unregister_gpu_vaspace())),
        UVM_PAGEABLE_MEM_ACCESS => Some((8, layout_pageable_mem_access())),
        UVM_PREVENT_MIGRATION_RANGE_GROUPS => Some((272, layout_prevent_migration_range_groups())),
        UVM_ALLOW_MIGRATION_RANGE_GROUPS => Some((272, layout_prevent_migration_range_groups())),
        UVM_SET_PREFERRED_LOCATION => Some((40, layout_set_preferred_location())),
        UVM_UNSET_PREFERRED_LOCATION => Some((24, layout_reserve_va())),
        UVM_ENABLE_READ_DUPLICATION => Some((24, layout_reserve_va())),
        UVM_DISABLE_READ_DUPLICATION => Some((24, layout_reserve_va())),
        UVM_SET_ACCESSED_BY => Some((40, layout_set_accessed_by())),
        UVM_UNSET_ACCESSED_BY => Some((40, layout_set_accessed_by())),
        UVM_MIGRATE => Some((80, layout_migrate())),
        UVM_MIGRATE_RANGE_GROUP => Some((32, layout_migrate_range_group())),
        UVM_ENABLE_SYSTEM_WIDE_ATOMICS => Some((20, layout_unregister_gpu_vaspace())),
        UVM_DISABLE_SYSTEM_WIDE_ATOMICS => Some((20, layout_unregister_gpu_vaspace())),
        UVM_TOOLS_INIT_EVENT_TRACKER => Some((56, layout_tools_init_event_tracker())),
        UVM_TOOLS_SET_NOTIFICATION_THRESHOLD => Some((8, layout_tools_set_notification_threshold())),
        UVM_TOOLS_EVENT_QUEUE_ENABLE_EVENTS => Some((16, layout_tools_event_queue_enable_events())),
        UVM_TOOLS_EVENT_QUEUE_DISABLE_EVENTS => Some((16, layout_tools_event_queue_enable_events())),
        UVM_TOOLS_ENABLE_COUNTERS => Some((16, layout_tools_enable_counters())),
        UVM_TOOLS_DISABLE_COUNTERS => Some((16, layout_tools_enable_counters())),
        UVM_TOOLS_READ_PROCESS_MEMORY => Some((40, layout_tools_read_process_memory())),
        UVM_TOOLS_WRITE_PROCESS_MEMORY => Some((40, layout_tools_write_process_memory())),
        UVM_TOOLS_GET_PROCESSOR_UUID_TABLE => Some((16, layout_tools_get_processor_uuid_table())),
        UVM_MAP_DYNAMIC_PARALLELISM_REGION => Some((40, layout_map_dynamic_parallelism_region())),
        UVM_UNMAP_EXTERNAL => Some((40, layout_map_dynamic_parallelism_region())),
        UVM_TOOLS_FLUSH_EVENTS => Some((4, layout_tools_flush_events())),
        UVM_ALLOC_SEMAPHORE_POOL => Some((9248, layout_alloc_semaphore_pool())),
        UVM_CLEAN_UP_ZOMBIE_RESOURCES => Some((4, layout_tools_flush_events())),
        UVM_PAGEABLE_MEM_ACCESS_ON_GPU => Some((24, layout_pageable_mem_access_on_gpu())),
        UVM_POPULATE_PAGEABLE => Some((24, layout_populate_pageable())),
        UVM_VALIDATE_VA_RANGE => Some((24, layout_validate_va_range())),
        UVM_CREATE_EXTERNAL_RANGE => Some((24, layout_validate_va_range())),
        UVM_MAP_EXTERNAL_SPARSE => Some((40, layout_map_dynamic_parallelism_region())),
        UVM_MM_INITIALIZE => Some((8, layout_mm_initialize())),
        UVM_TOOLS_INIT_EVENT_TRACKER_V2 => Some((56, layout_tools_init_event_tracker())),
        UVM_TOOLS_GET_PROCESSOR_UUID_TABLE_V2 => Some((16, layout_tools_get_processor_uuid_table())),
        UVM_ALLOC_DEVICE_P2P => Some((56, layout_alloc_device_p2p())),
        UVM_CLEAR_ALL_ACCESS_COUNTERS => Some((4, layout_tools_flush_events())),
        UVM_DISCARD => Some((32, layout_discard())),
        UVM_IS_8_SUPPORTED => Some((8, layout_is8_supported())),
        _ => None,
    }
}

/// The size and layout of the parameter block of a command that has a decoder.
pub fn uvm_params_layout(cmd: u64) -> (r: Option<(usize, Vec<FieldDesc>)>)
    ensures
        r is Some <==> uvm_params(cmd) is Some,
        r is Some ==> r.unwrap().0 as nat == uvm_params(cmd).unwrap().0 && r.unwrap().1@ == uvm_params(cmd).unwrap().1,
{
    let cmd = normalize_uvm_cmd(cmd);
    match cmd {
        UVM_INITIALIZE => Some((16, layout_initialize_vec())),
        UVM_RESERVE_VA => Some((24, layout_reserve_va_vec())),
        UVM_RELEASE_VA => Some((24, layout_reserve_va_vec())),
        UVM_REGION_COMMIT => Some((48, layout_region_commit_vec())),
        UVM_REGION_DECOMMIT => Some((24, layout_reserve_va_vec())),
        UVM_REGION_SET_STREAM => Some((48, layout_region_set_stream_vec())),
        UVM_SET_STREAM_RUNNING => Some((16, layout_set_stream_running_vec())),
        UVM_SET_STREAM_STOPPED => Some((272, layout_set_stream_stopped_vec())),
        UVM_ADD_SESSION => Some((8, layout_add_session_vec())),
        UVM_ENABLE_COUNTERS => Some((904, layout_enable_counters_vec())),
        UVM_MAP_COUNTER => Some((40, layout_map_counter_vec())),
        UVM_CREATE_EVENT_QUEUE => Some((40, layout_create_event_queue_vec())),
        UVM_REMOVE_EVENT_QUEUE => Some((8, layout_remove_event_queue_vec())),
        UVM_MAP_EVENT_QUEUE => Some((56, layout_map_event_queue_vec())),
        UVM_EVENT_CTRL => Some((16, layout_event_ctrl_vec())),
        UVM_GET_GPU_UUID_TABLE => Some((520, layout_get_gpu_uuid_table_vec())),
        UVM_REGION_SET_BACKING => Some((48, layout_region_set_backing_vec())),
        UVM_REGION_UNSET_BACKING => Some((24, layout_region_unset_backing_vec())),
        UVM_CREATE_RANGE_GROUP => Some((16, layout_create_range_group_vec())),
        UVM_DESTROY_RANGE_GROUP => Some((16, layout_create_range_group_vec())),
        UVM_REGISTER_GPU_VASPACE => Some((32, layout_register_gpu_vaspace_vec())),
        UVM_UNREGISTER_GPU_VASPACE => Some((20, layout_unregister_gpu_vaspace_vec())),
        UVM_REGISTER_CHANNEL => Some((56, layout_register_channel_vec())),
        UVM_UNREGISTER_CHANNEL => Some((12, layout_unregister_channel_vec())),
        UVM_ENABLE_PEER_ACCESS => Some((36, layout_enable_peer_access_vec())),
        UVM_DISABLE_PEER_ACCESS => Some((36, layout_enable_peer_access_vec())),
        UVM_SET_RANGE_GROUP => Some((32, layout_set_range_group_vec())),
        UVM_MAP_EXTERNAL_ALLOCATION => Some((9264, layout_map_external_allocation_vec())),
        UVM_FREE => Some((16, layout_free_vec())),
        UVM_MEM_MAP => Some((24, layout_mem_map_vec())),
        UVM_REGISTER_GPU => Some((40, layout_register_gpu_vec())),
        UVM_UNREGISTER_GPU => Some((20, layout_unregister_gpu_vaspace_vec())),
        UVM_PAGEABLE_MEM_ACCESS => Some((8, layout_pageable_mem_access_vec())),
        UVM_PREVENT_MIGRATION_RANGE_GROUPS => Some((272, layout_prevent_migration_range_groups_vec())),
        UVM_ALLOW_MIGRATION_RANGE_GROUPS => Some((272, layout_prevent_migration_range_groups_vec())),
        UVM_SET_PREFERRED_LOCATION => Some((40, layout_set_preferred_location_vec())),
        UVM_UNSET_PREFERRED_LOCATION => Some((24, layout_reserve_va_vec())),
        UVM_ENABLE_READ_DUPLICATION => Some((24, layout_reserve_va_vec())),
        UVM_DISABLE_READ_DUPLICATION => Some((24, layout_reserve_va_vec())),
        UVM_SET_ACCESSED_BY => Some((40, layout_set_accessed_by_vec())),
        UVM_UNSET_ACCESSED_BY => Some((40, layout_set_accessed_by_vec())),
        UVM_MIGRATE => Some((80, layout_migrate_vec())),
        UVM_MIGRATE_RANGE_GROUP => Some((32, layout_migrate_range_group_vec())),
        UVM_ENABLE_SYSTEM_WIDE_ATOMICS => Some((20, layout_unregister_gpu_vaspace_vec())),
        UVM_DISABLE_SYSTEM_WIDE_ATOMICS => Some((20, layout_unregister_gpu_vaspace_vec())),
        UVM_TOOLS_INIT_EVENT_TRACKER => Some((56, layout_tools_init_event_tracker_vec())),
        UVM_TOOLS_SET_NOTIFICATION_THRESHOLD => Some((8, layout_tools_set_notification_threshold_vec())),
        UVM_TOOLS_EVENT_QUEUE_ENABLE_EVENTS => Some((16, layout_tools_event_queue_enable_events_vec())),
        UVM_TOOLS_EVENT_QUEUE_DISABLE_EVENTS => Some((16, layout_tools_event_queue_enable_events_vec())),
        UVM_TOOLS_ENABLE_COUNTERS => Some((16, layout_tools_enable_counters_vec())),
        UVM_TOOLS_DISABLE_COUNTERS => Some((16, layout_tools_enable_counters_vec())),
        UVM_TOOLS_READ_PROCESS_MEMORY => Some((40, layout_tools_read_process_memory_vec())),
        UVM_TOOLS_WRITE_PROCESS_MEMORY => Some((40, layout_tools_write_process_memory_vec())),
        UVM_TOOLS_GET_PROCESSOR_UUID_TABLE => Some((16, layout_tools_get_processor_uuid_table_vec())),
        UVM_MAP_DYNAMIC_PARALLELISM_REGION => Some((40, layout_map_dynamic_parallelism_region_vec())),
        UVM_UNMAP_EXTERNAL => Some((40, layout_map_dynamic_parallelism_region_vec())),
        UVM_TOOLS_FLUSH_EVENTS => Some((4, layout_tools_flush_events_vec())),
        UVM_ALLOC_SEMAPHORE_POOL => Some((9248, layout_alloc_semaphore_pool_vec())),
        UVM_CLEAN_UP_ZOMBIE_RESOURCES => Some((4, layout_tools_flush_events_vec())),
        UVM_PAGEABLE_MEM_ACCESS_ON_GPU => Some((24, layout_pageable_mem_access_on_gpu_vec())),
        UVM_POPULATE_PAGEABLE => Some((24, layout_populate_pageable_vec())),
        UVM_VALIDATE_VA_RANGE => Some((24, layout_validate_va_range_vec())),
        UVM_CREATE_EXTERNAL_RANGE => Some((24, layout_validate_va_range_vec())),
        UVM_MAP_EXTERNAL_SPARSE => Some((40, layout_map_dynamic_parallelism_region_vec())),
        UVM_MM_INITIALIZE => Some((8, layout_mm_initialize_vec())),
        UVM_TOOLS_INIT_EVENT_TRACKER_V2 => Some((56, layout_tools_init_event_tracker_vec())),
        UVM_TOOLS_GET_PROCESSOR_UUID_TABLE_V2 => Some((16, layout_tools_get_processor_uuid_table_vec())),
        UVM_ALLOC_DEVICE_P2P => Some((56, layout_alloc_device_p2p_vec())),
        UVM_CLEAR_ALL_ACCESS_COUNTERS => Some((4, layout_tools_flush_events_vec())),
        UVM_DISCARD => Some((32, layout_discard_vec())),
        UVM_IS_8_SUPPORTED => Some((8, layout_is8_supported_vec())),
        _ => None,
    }
}


/// How many bytes of the parameter block a member reads from its offset; a truncation
/// flag reads only its count.
pub open spec fn field_width(k: FieldKind) -> nat {
    match k {
        FieldKind::Hex64 | FieldKind::U64 => 8,
        FieldKind::Hex32 | FieldKind::U32 | FieldKind::I32 | FieldKind::Flag32 => 4,
        FieldKind::Uuid => 16,
        FieldKind::Flag8 => 1,
        FieldKind::List { elem, max, .. } => crate::uvm_fields::elem_size(elem) * max as nat,
        FieldKind::Truncated { .. } => 0,
    }
}

/// Whether `at` is a multiple of the alignment that the C layout gives a member of kind `k`.
pub open spec fn aligned(at: nat, k: FieldKind) -> bool {
    match k {
        FieldKind::Hex64 | FieldKind::U64 => at % 8 == 0,
        FieldKind::Hex32 | FieldKind::U32 | FieldKind::I32 | FieldKind::Flag32 => at % 4 == 0,
        FieldKind::List { elem: ElemKind::U64, .. } => at % 8 == 0,
        FieldKind::List { elem: ElemKind::CounterConfig, .. } => at % 4 == 0,
        FieldKind::List { elem: ElemKind::GpuAttributes, .. } => at % 4 == 0,
        _ => true,
    }
}

/// Where the count of a list (or of a truncation flag) is read, and its width.
pub open spec fn count_range(k: FieldKind) -> Option<(nat, nat)> {
    match k {
        FieldKind::List { count_at, count_wide, .. } => Some((count_at as nat, if count_wide { 8nat } else { 4 })),
        FieldKind::Truncated { count_at, count_wide, .. } => Some((count_at as nat, if count_wide { 8nat } else { 4 })),
        _ => None,
    }
}

/// Whether member `i` of `lay` fits a block of `size` bytes at its natural alignment.
pub open spec fn field_fits(lay: Seq<FieldDesc>, size: nat, i: int) -> bool {
    &&& lay[i].at + field_width(lay[i].kind) <= size
    &&& aligned(lay[i].at as nat, lay[i].kind)
    &&& (count_range(lay[i].kind) matches Some(c) ==> c.0 + c.1 <= size)
}

/// Whether members `i` and `j` of `lay` read disjoint bytes.
pub open spec fn fields_apart(lay: Seq<FieldDesc>, i: int, j: int) -> bool {
    field_width(lay[i].kind) == 0 || field_width(lay[j].kind) == 0
        || lay[i].at + field_width(lay[i].kind) <= lay[j].at
        || lay[j].at + field_width(lay[j].kind) <= lay[i].at
}

/// Whether `lay` describes a C struct of `size` bytes: every member lies inside it at its
/// natural alignment, and no two members read the same bytes.
pub open spec fn layout_fits(lay: Seq<FieldDesc>, size: nat) -> bool {
    &&& forall|i: int| 0 <= i < lay.len() ==> #[trigger] field_fits(lay, size, i)
    &&& forall|i: int, j: int| 0 <= i < j < lay.len() ==> #[trigger] fields_apart(lay, i, j)
}

/// Member `i` reads bytes apart from each member from `j` on.
spec fn apart_from(lay: Seq<FieldDesc>, i: int, j: int) -> bool
    decreases lay.len() - j,
{
    j >= lay.len() || (fields_apart(lay, i, j) && apart_from(lay, i, j + 1))
}

/// The members from `i` on fit, and each is apart from those after it.
spec fn fits_from(lay: Seq<FieldDesc>, size: nat, i: int) -> bool
    decreases lay.len() - i,
{
    i >= lay.len() || (field_fits(lay, size, i) && apart_from(lay, i, i + 1) && fits_from(lay, size, i + 1))
}

proof fn lemma_apart_from(lay: Seq<FieldDesc>, i: int, j: int, k: int)
    requires
        apart_from(lay, i, j),
        j <= k < lay.len(),
    ensures
        fields_apart(lay, i, k),
    decreases k - j,
{
    if j < k {
        lemma_apart_from(lay, i, j + 1, k);
    }
}

proof fn lemma_fits_from(lay: Seq<FieldDesc>, size: nat, i: int, k: int)
    requires
        fits_from(lay, size, i),
        0 <= i <= k < lay.len(),
    ensures
        field_fits(lay, size, k),
        forall|j: int| k < j < lay.len() ==> #[trigger] fields_apart(lay, k, j),
    decreases k - i,
{
    if i < k {
        lemma_fits_from(lay, size, i + 1, k);
    } else {
        assert forall|j: int| k < j < lay.len() implies #[trigger] fields_apart(lay, k, j) by {
            lemma_apart_from(lay, k, k + 1, j);
        }
    }
}

proof fn lemma_fits_by_pairs(lay: Seq<FieldDesc>, size: nat)
    requires
        fits_from(lay, size, 0),
    ensures
        layout_fits(lay, size),
{
    assert forall|i: int| 0 <= i < lay.len() implies #[trigger] field_fits(lay, size, i) by {
        lemma_fits_from(lay, size, 0, i);
    }
    assert forall|i: int, j: int| 0 <= i < j < lay.len() implies #[trigger] fields_apart(lay, i, j) by {
        lemma_fits_from(lay, size, 0, i);
    }
}

#[verifier::spinoff_prover]
#[verifier::rlimit(100)]
proof fn lemma_layouts_fit_part0()
    ensures
        layout_fits(layout_add_session(), 8),
        layout_fits(layout_alloc_device_p2p(), 56),
        layout_fits(layout_alloc_semaphore_pool(), 9248),
{
    assert(layout_fits(layout_add_session(), 8)) by {
        reveal_with_fuel(fits_from, 3);
        reveal_with_fuel(apart_from, 3);
        lemma_fits_by_pairs(layout_add_session(), 8);
    }
    assert(layout_fits(layout_alloc_device_p2p(), 56)) by {
        reveal_with_fuel(fits_from, 9);
        reveal_with_fuel(apart_from, 9);
        lemma_fits_by_pairs(layout_alloc_device_p2p(), 56);
    }
    assert(layout_fits(layout_alloc_semaphore_pool(), 9248)) by {
        reveal_with_fuel(fits_from, 7);
        reveal_with_fuel(apart_from, 7);
        lemma_fits_by_pairs(layout_alloc_semaphore_pool(), 9248);
    }
}

#[verifier::spinoff_prover]
#[verifier::rlimit(100)]
proof fn lemma_layouts_fit_part1()
    ensures
        layout_fits(layout_create_event_queue(), 40),
        layout_fits(layout_create_range_group(), 16),
        layout_fits(layout_discard(), 32),
{
    assert(layout_fits(layout_create_event_queue(), 40)) by {
        reveal_with_fuel(fits_from, 7);
        reveal_with_fuel(apart_from, 7);
        lemma_fits_by_pairs(layout_create_event_queue(), 40);
    }
    assert(layout_fits(layout_create_range_group(), 16)) by {
        reveal_with_fuel(fits_from, 3);
        reveal_with_fuel(apart_from, 3);
        lemma_fits_by_pairs(layout_create_range_group(), 16);
    }
    assert(layout_fits(layout_discard(), 32)) by {
        reveal_with_fuel(fits_from, 5);
        reveal_with_fuel(apart_from, 5);
        lemma_fits_by_pairs(layout_discard(), 32);
    }
}

#[verifier::spinoff_prover]
#[verifier::rlimit(100)]
proof fn lemma_layouts_fit_part2()
    ensures
        layout_fits(layout_enable_counters(), 904),
        layout_fits(layout_enable_peer_access(), 36),
        layout_fits(layout_event_ctrl(), 16),
{
    assert(layout_fits(layout_enable_counters(), 904)) by {
        reveal_with_fuel(fits_from, 5);
        reveal_with_fuel(apart_from, 5);
        lemma_fits_by_pairs(layout_enable_counters(), 904);
    }
    assert(layout_fits(layout_enable_peer_access(), 36)) by {
        reveal_with_fuel(fits_from, 4);
        reveal_with_fuel(apart_from, 4);
        lemma_fits_by_pairs(layout_enable_peer_access(), 36);
    }
    assert(layout_fits(layout_event_ctrl(), 16)) by {
        reveal_with_fuel(fits_from, 5);
        reveal_with_fuel(apart_from, 5);
        lemma_fits_by_pairs(layout_event_ctrl(), 16);
    }
}

#[verifier::spinoff_prover]
#[verifier::rlimit(100)]
proof fn lemma_layouts_fit_part3()
    ensures
        layout_fits(layout_free(), 16),
        layout_fits(layout_get_gpu_uuid_table(), 520),
        layout_fits(layout_initialize(), 16),
{
    assert(layout_fits(layout_free(), 16)) by {
        reveal_with_fuel(fits_from, 3);
        reveal_with_fuel(apart_from, 3);
        lemma_fits_by_pairs(layout_free(), 16);
    }
    assert(layout_fits(layout_get_gpu_uuid_table(), 520)) by {
        reveal_with_fuel(fits_from, 5);
        reveal_with_fuel(apart_from, 5);
        lemma_fits_by_pairs(layout_get_gpu_uuid_table(), 520);
    }
    assert(layout_fits(layout_initialize(), 16)) by {
        reveal_with_fuel(fits_from, 3);
        reveal_with_fuel(apart_from, 3);
        lemma_fits_by_pairs(layout_initialize(), 16);
    }
}

#[verifier::spinoff_prover]
#[verifier::rlimit(100)]
proof fn lemma_layouts_fit_part4()
    ensures
        layout_fits(layout_is8_supported(), 8),
        layout_fits(layout_map_counter(), 40),
        layout_fits(layout_map_dynamic_parallelism_region(), 40),
{
    assert(layout_fits(layout_is8_supported(), 8)) by {
        reveal_with_fuel(fits_from, 3);
        reveal_with_fuel(apart_from, 3);
        lemma_fits_by_pairs(layout_is8_supported(), 8);
    }
    assert(layout_fits(layout_map_counter(), 40)) by {
        reveal_with_fuel(fits_from, 6);
        reveal_with_fuel(apart_from, 6);
        lemma_fits_by_pairs(layout_map_counter(), 40);
    }
    assert(layout_fits(layout_map_dynamic_parallelism_region(), 40)) by {
        reveal_with_fuel(fits_from, 5);
        reveal_with_fuel(apart_from, 5);
        lemma_fits_by_pairs(layout_map_dynamic_parallelism_region(), 40);
    }
}

#[verifier::spinoff_prover]
#[verifier::rlimit(100)]
proof fn lemma_layouts_fit_part5()
    ensures
        layout_fits(layout_map_event_queue(), 56),
        layout_fits(layout_map_external_allocation(), 9264),
        layout_fits(layout_mem_map(), 24),
{
    assert(layout_fits(layout_map_event_queue(), 56)) by {
        reveal_with_fuel(fits_from, 8);
        reveal_with_fuel(apart_from, 8);
        lemma_fits_by_pairs(layout_map_event_queue(), 56);
    }
    assert(layout_fits(layout_map_external_allocation(), 9264)) by {
        reveal_with_fuel(fits_from, 11);
        reveal_with_fuel(apart_from, 11);
        lemma_fits_by_pairs(layout_map_external_allocation(), 9264);
    }
    assert(layout_fits(layout_mem_map(), 24)) by {
        reveal_with_fuel(fits_from, 4);
        reveal_with_fuel(apart_from, 4);
        lemma_fits_by_pairs(layout_mem_map(), 24);
    }
}

#[verifier::spinoff_prover]
#[verifier::rlimit(100)]
proof fn lemma_layouts_fit_part6()
    ensures
        layout_fits(layout_migrate(), 80),
        layout_fits(layout_migrate_range_group(), 32),
        layout_fits(layout_mm_initialize(), 8),
{
    assert(layout_fits(layout_migrate(), 80)) by {
        reveal_with_fuel(fits_from, 11);
        reveal_with_fuel(apart_from, 11);
        lemma_fits_by_pairs(layout_migrate(), 80);
    }
    assert(layout_fits(layout_migrate_range_group(), 32)) by {
        reveal_with_fuel(fits_from, 4);
        reveal_with_fuel(apart_from, 4);
        lemma_fits_by_pairs(layout_migrate_range_group(), 32);
    }
    assert(layout_fits(layout_mm_initialize(), 8)) by {
        reveal_with_fuel(fits_from, 3);
        reveal_with_fuel(apart_from, 3);
        lemma_fits_by_pairs(layout_mm_initialize(), 8);
    }
}

#[verifier::spinoff_prover]
#[verifier::rlimit(100)]
proof fn lemma_layouts_fit_part7()
    ensures
        layout_fits(layout_pageable_mem_access(), 8),
        layout_fits(layout_pageable_mem_access_on_gpu(), 24),
        layout_fits(layout_populate_pageable(), 24),
{
    assert(layout_fits(layout_pageable_mem_access(), 8)) by {
        reveal_with_fuel(fits_from, 3);
        reveal_with_fuel(apart_from, 3);
        lemma_fits_by_pairs(layout_pageable_mem_access(), 8);
    }
    assert(layout_fits(layout_pageable_mem_access_on_gpu(), 24)) by {
        reveal_with_fuel(fits_from, 4);
        reveal_with_fuel(apart_from, 4);
        lemma_fits_by_pairs(layout_pageable_mem_access_on_gpu(), 24);
    }
    assert(layout_fits(layout_populate_pageable(), 24)) by {
        reveal_with_fuel(fits_from, 5);
        reveal_with_fuel(apart_from, 5);
        lemma_fits_by_pairs(layout_populate_pageable(), 24);
    }
}

#[verifier::spinoff_prover]
#[verifier::rlimit(100)]
proof fn lemma_layouts_fit_part8()
    ensures
        layout_fits(layout_prevent_migration_range_groups(), 272),
        layout_fits(layout_region_commit(), 48),
        layout_fits(layout_region_set_backing(), 48),
{
    assert(layout_fits(layout_prevent_migration_range_groups(), 272)) by {
        reveal_with_fuel(fits_from, 5);
        reveal_with_fuel(apart_from, 5);
        lemma_fits_by_pairs(layout_prevent_migration_range_groups(), 272);
    }
    assert(layout_fits(layout_region_commit(), 48)) by {
        reveal_with_fuel(fits_from, 6);
        reveal_with_fuel(apart_from, 6);
        lemma_fits_by_pairs(layout_region_commit(), 48);
    }
    assert(layout_fits(layout_region_set_backing(), 48)) by {
        reveal_with_fuel(fits_from, 6);
        reveal_with_fuel(apart_from, 6);
        lemma_fits_by_pairs(layout_region_set_backing(), 48);
    }
}

#[verifier::spinoff_prover]
#[verifier::rlimit(100)]
proof fn lemma_layouts_fit_part9()
    ensures
        layout_fits(layout_region_set_stream(), 48),
        layout_fits(layout_region_unset_backing(), 24),
        layout_fits(layout_register_channel(), 56),
{
    assert(layout_fits(layout_region_set_stream(), 48)) by {
        reveal_with_fuel(fits_from, 6);
        reveal_with_fuel(apart_from, 6);
        lemma_fits_by_pairs(layout_region_set_stream(), 48);
    }
    assert(layout_fits(layout_region_unset_backing(), 24)) by {
        reveal_with_fuel(fits_from, 4);
        reveal_with_fuel(apart_from, 4);
        lemma_fits_by_pairs(layout_region_unset_backing(), 24);
    }
    assert(layout_fits(layout_register_channel(), 56)) by {
        reveal_with_fuel(fits_from, 8);
        reveal_with_fuel(apart_from, 8);
        lemma_fits_by_pairs(layout_register_channel(), 56);
    }
}

#[verifier::spinoff_prover]
#[verifier::rlimit(100)]
proof fn lemma_layouts_fit_part10()
    ensures
        layout_fits(layout_register_gpu(), 40),
        layout_fits(layout_register_gpu_vaspace(), 32),
        layout_fits(layout_remove_event_queue(), 8),
{
    assert(layout_fits(layout_register_gpu(), 40)) by {
        reveal_with_fuel(fits_from, 8);
        reveal_with_fuel(apart_from, 8);
        lemma_fits_by_pairs(layout_register_gpu(), 40);
    }
    assert(layout_fits(layout_register_gpu_vaspace(), 32)) by {
        reveal_with_fuel(fits_from, 6);
        reveal_with_fuel(apart_from, 6);
        lemma_fits_by_pairs(layout_register_gpu_vaspace(), 32);
    }
    assert(layout_fits(layout_remove_event_queue(), 8)) by {
        reveal_with_fuel(fits_from, 3);
        reveal_with_fuel(apart_from, 3);
        lemma_fits_by_pairs(layout_remove_event_queue(), 8);
    }
}

#[verifier::spinoff_prover]
#[verifier::rlimit(100)]
proof fn lemma_layouts_fit_part11()
    ensures
        layout_fits(layout_reserve_va(), 24),
        layout_fits(layout_set_accessed_by(), 40),
        layout_fits(layout_set_preferred_location(), 40),
{
    assert(layout_fits(layout_reserve_va(), 24)) by {
        reveal_with_fuel(fits_from, 4);
        reveal_with_fuel(apart_from, 4);
        lemma_fits_by_pairs(layout_reserve_va(), 24);
    }
    assert(layout_fits(layout_set_accessed_by(), 40)) by {
        reveal_with_fuel(fits_from, 5);
        reveal_with_fuel(apart_from, 5);
        lemma_fits_by_pairs(layout_set_accessed_by(), 40);
    }
    assert(layout_fits(layout_set_preferred_location(), 40)) by {
        reveal_with_fuel(fits_from, 6);
        reveal_with_fuel(apart_from, 6);
        lemma_fits_by_pairs(layout_set_preferred_location(), 40);
    }
}

#[verifier::spinoff_prover]
#[verifier::rlimit(100)]
proof fn lemma_layouts_fit_part12()
    ensures
        layout_fits(layout_set_range_group(), 32),
        layout_fits(layout_set_stream_running(), 16),
        layout_fits(layout_set_stream_stopped(), 272),
{
    assert(layout_fits(layout_set_range_group(), 32)) by {
        reveal_with_fuel(fits_from, 5);
        reveal_with_fuel(apart_from, 5);
        lemma_fits_by_pairs(layout_set_range_group(), 32);
    }
    assert(layout_fits(layout_set_stream_running(), 16)) by {
        reveal_with_fuel(fits_from, 3);
        reveal_with_fuel(apart_from, 3);
        lemma_fits_by_pairs(layout_set_stream_running(), 16);
    }
    assert(layout_fits(layout_set_stream_stopped(), 272)) by {
        reveal_with_fuel(fits_from, 5);
        reveal_with_fuel(apart_from, 5);
        lemma_fits_by_pairs(layout_set_stream_stopped(), 272);
    }
}

#[verifier::spinoff_prover]
#[verifier::rlimit(100)]
proof fn lemma_layouts_fit_part13()
    ensures
        layout_fits(layout_tools_enable_counters(), 16),
        layout_fits(layout_tools_event_queue_enable_events(), 16),
        layout_fits(layout_tools_flush_events(), 4),
{
    assert(layout_fits(layout_tools_enable_counters(), 16)) by {
        reveal_with_fuel(fits_from, 3);
        reveal_with_fuel(apart_from, 3);
        lemma_fits_by_pairs(layout_tools_enable_counters(), 16);
    }
    assert(layout_fits(layout_tools_event_queue_enable_events(), 16)) by {
        reveal_with_fuel(fits_from, 3);
        reveal_with_fuel(apart_from, 3);
        lemma_fits_by_pairs(layout_tools_event_queue_enable_events(), 16);
    }
    assert(layout_fits(layout_tools_flush_events(), 4)) by {
        reveal_with_fuel(fits_from, 2);
        reveal_with_fuel(apart_from, 2);
        lemma_fits_by_pairs(layout_tools_flush_events(), 4);
    }
}

#[verifier::spinoff_prover]
#[verifier::rlimit(100)]
proof fn lemma_layouts_fit_part14()
    ensures
        layout_fits(layout_tools_get_processor_uuid_table(), 16),
        layout_fits(layout_tools_init_event_tracker(), 56),
        layout_fits(layout_tools_read_process_memory(), 40),
{
    assert(layout_fits(layout_tools_get_processor_uuid_table(), 16)) by {
        reveal_with_fuel(fits_from, 3);
        reveal_with_fuel(apart_from, 3);
        lemma_fits_by_pairs(layout_tools_get_processor_uuid_table(), 16);
    }
    assert(layout_fits(layout_tools_init_event_tracker(), 56)) by {
        reveal_with_fuel(fits_from, 8);
        reveal_with_fuel(apart_from, 8);
        lemma_fits_by_pairs(layout_tools_init_event_tracker(), 56);
    }
    assert(layout_fits(layout_tools_read_process_memory(), 40)) by {
        reveal_with_fuel(fits_from, 6);
        reveal_with_fuel(apart_from, 6);
        lemma_fits_by_pairs(layout_tools_read_process_memory(), 40);
    }
}

#[verifier::spinoff_prover]
#[verifier::rlimit(100)]
proof fn lemma_layouts_fit_part15()
    ensures
        layout_fits(layout_tools_set_notification_threshold(), 8),
        layout_fits(layout_tools_write_process_memory(), 40),
        layout_fits(layout_unregister_channel(), 12),
{
    assert(layout_fits(layout_tools_set_notification_threshold(), 8)) by {
        reveal_with_fuel(fits_from, 3);
        reveal_with_fuel(apart_from, 3);
        lemma_fits_by_pairs(layout_tools_set_notification_threshold(), 8);
    }
    assert(layout_fits(layout_tools_write_process_memory(), 40)) by {
        reveal_with_fuel(fits_from, 6);
        reveal_with_fuel(apart_from, 6);
        lemma_fits_by_pairs(layout_tools_write_process_memory(), 40);
    }
    assert(layout_fits(layout_unregister_channel(), 12)) by {
        reveal_with_fuel(fits_from, 4);
        reveal_with_fuel(apart_from, 4);
        lemma_fits_by_pairs(layout_unregister_channel(), 12);
    }
}

#[verifier::spinoff_prover]
#[verifier::rlimit(100)]
proof fn lemma_layouts_fit_part16()
    ensures
        layout_fits(layout_unregister_gpu_vaspace(), 20),
        layout_fits(layout_validate_va_range(), 24),
{
    assert(layout_fits(layout_unregister_gpu_vaspace(), 20)) by {
        reveal_with_fuel(fits_from, 3);
        reveal_with_fuel(apart_from, 3);
        lemma_fits_by_pairs(layout_unregister_gpu_vaspace(), 20);
    }
    assert(layout_fits(layout_validate_va_range(), 24)) by {
        reveal_with_fuel(fits_from, 4);
        reveal_with_fuel(apart_from, 4);
        lemma_fits_by_pairs(layout_validate_va_range(), 24);
    }
}

/// Every parameter block that is decoded is read as the C struct it is: each member lies
/// inside the block at its natural alignment, and no two members read the same bytes.
pub proof fn lemma_layouts_fit(cmd: u64)
    ensures
        uvm_params(cmd) matches Some(p) ==> layout_fits(p.1, p.0),
{
    lemma_layouts_fit_part0();
    lemma_layouts_fit_part1();
    lemma_layouts_fit_part2();
    lemma_layouts_fit_part3();
    lemma_layouts_fit_part4();
    lemma_layouts_fit_part5();
    lemma_layouts_fit_part6();
    lemma_layouts_fit_part7();
    lemma_layouts_fit_part8();
    lemma_layouts_fit_part9();
    lemma_layouts_fit_part10();
    lemma_layouts_fit_part11();
    lemma_layouts_fit_part12();
    lemma_layouts_fit_part13();
    lemma_layouts_fit_part14();
    lemma_layouts_fit_part15();
    lemma_layouts_fit_part16();
}

/// For `UVM_MIGRATE` (`UvmMigrateParams`: `base` at 0, `length` at 8, `destinationUuid`
/// at 16, `flags` at 32), the decoded members begin with the base address in hexadecimal,
/// the length in decimal, the destination UUID and the flags, each read at its offset.
pub proof fn lemma_migrate_members(b: Seq<u8>)
    ensures
        uvm_params(UVM_MIGRATE) matches Some(p) && p.0 == 80 && p.1.len() == 10 && ({
            let m = crate::uvm_fields::layout_members(p.1, b);
            &&& m[0] == ("base"@, crate::json::quote(crate::uvm_fields::hex0x(crate::uvm_fields::le(b, 0, 8))))
            &&& m[1] == ("length"@, crate::text::dec(crate::uvm_fields::le(b, 8, 8)))
            &&& m[2] == ("destinationUuid"@, crate::json::quote(crate::uvm_fields::uuid_text(b, 16)))
            &&& m[3] == ("flags"@, crate::json::quote(crate::uvm_fields::hex0x(crate::uvm_fields::le(b, 32, 4))))
        }),
{
}

} // verus!
