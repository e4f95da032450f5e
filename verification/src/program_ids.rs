use vstd::prelude::*;
use crate::addr::Addr;

verus! {

/// The memo program's address bytes.
pub open spec fn memo_program_bytes() -> Seq<u8> {
    seq![5u8, 74, 83, 90, 153, 41, 33, 6, 77, 36, 232, 113, 96, 218, 56, 124, 124, 53, 181, 221,
        188, 146, 187, 129, 228, 31, 168, 64, 65, 5, 68, 141]
}

pub fn memo_program_id() -> (r: Addr)
    ensures
        r@ == memo_program_bytes(),
{
    let a = Addr {
        bytes: [5u8, 74, 83, 90, 153, 41, 33, 6, 77, 36, 232, 113, 96, 218, 56, 124, 124, 53, 181,
            221, 188, 146, 187, 129, 228, 31, 168, 64, 65, 5, 68, 141],
    };
    proof {
        assert(a@ =~= memo_program_bytes());
    }
    a
}

/// The first memo program's address bytes.
pub open spec fn memo_v1_program_bytes() -> Seq<u8> {
    seq![5u8, 74, 83, 80, 248, 93, 200, 130, 214, 20, 165, 86, 114, 120, 138, 41, 109, 223, 30,
        171, 171, 208, 166, 6, 120, 136, 73, 50, 244, 238, 246, 160]
}

pub fn memo_v1_program_id() -> (r: Addr)
    ensures
        r@ == memo_v1_program_bytes(),
{
    let a = Addr {
        bytes: [5u8, 74, 83, 80, 248, 93, 200, 130, 214, 20, 165, 86, 114, 120, 138, 41, 109, 223,
            30, 171, 171, 208, 166, 6, 120, 136, 73, 50, 244, 238, 246, 160],
    };
    proof {
        assert(a@ =~= memo_v1_program_bytes());
    }
    a
}

/// The token-2022 program's address bytes.
pub open spec fn token_2022_program_bytes() -> Seq<u8> {
    seq![6u8, 221, 246, 225, 238, 117, 143, 222, 24, 66, 93, 188, 228, 108, 205, 218, 182, 26,
        252, 77, 131, 185, 13, 39, 254, 189, 249, 40, 216, 161, 139, 252]
}

pub fn token_2022_program_id() -> (r: Addr)
    ensures
        r@ == token_2022_program_bytes(),
{
    let a = Addr {
        bytes: [6u8, 221, 246, 225, 238, 117, 143, 222, 24, 66, 93, 188, 228, 108, 205, 218, 182,
            26, 252, 77, 131, 185, 13, 39, 254, 189, 249, 40, 216, 161, 139, 252],
    };
    proof {
        assert(a@ =~= token_2022_program_bytes());
    }
    a
}

/// The address-lookup-table program's address bytes.
pub open spec fn address_lookup_table_program_bytes() -> Seq<u8> {
    seq![2u8, 119, 166, 175, 151, 51, 155, 122, 200, 141, 24, 146, 201, 4, 70, 245, 0, 2, 48, 146,
        102, 246, 46, 83, 193, 24, 36, 73, 130, 0, 0, 0]
}

pub fn address_lookup_table_program_id() -> (r: Addr)
    ensures
        r@ == address_lookup_table_program_bytes(),
{
    let a = Addr {
        bytes: [2u8, 119, 166, 175, 151, 51, 155, 122, 200, 141, 24, 146, 201, 4, 70, 245, 0, 2,
            48, 146, 102, 246, 46, 83, 193, 24, 36, 73, 130, 0, 0, 0],
    };
    proof {
        assert(a@ =~= address_lookup_table_program_bytes());
    }
    a
}

/// The compute-budget program's address bytes.
pub open spec fn compute_budget_program_bytes() -> Seq<u8> {
    seq![3u8, 6, 70, 111, 229, 33, 23, 50, 255, 236, 173, 186, 114, 195, 155, 231, 188, 140, 229,
        187, 197, 247, 18, 107, 44, 67, 155, 58, 64, 0, 0, 0]
}

pub fn compute_budget_program_id() -> (r: Addr)
    ensures
        r@ == compute_budget_program_bytes(),
{
    let a = Addr {
        bytes: [3u8, 6, 70, 111, 229, 33, 23, 50, 255, 236, 173, 186, 114, 195, 155, 231, 188,
            140, 229, 187, 197, 247, 18, 107, 44, 67, 155, 58, 64, 0, 0, 0],
    };
    proof {
        assert(a@ =~= compute_budget_program_bytes());
    }
    a
}

/// The token program's address bytes.
pub open spec fn token_program_bytes() -> Seq<u8> {
    seq![6u8, 221, 246, 225, 215, 101, 161, 147, 217, 203, 225, 70, 206, 235, 121, 172, 28, 180,
        133, 237, 95, 91, 55, 145, 58, 140, 245, 133, 126, 255, 0, 169]
}

pub fn token_program_id() -> (r: Addr)
    ensures
        r@ == token_program_bytes(),
{
    let a = Addr {
        bytes: [6u8, 221, 246, 225, 215, 101, 161, 147, 217, 203, 225, 70, 206, 235, 121, 172, 28,
            180, 133, 237, 95, 91, 55, 145, 58, 140, 245, 133, 126, 255, 0, 169],
    };
    proof {
        assert(a@ =~= token_program_bytes());
    }
    a
}

/// The associated-token program's address bytes.
pub open spec fn associated_token_program_bytes() -> Seq<u8> {
    seq![140u8, 151, 37, 143, 78, 36, 137, 241, 187, 61, 16, 41, 20, 142, 13, 131, 11, 90, 19,
        153, 218, 255, 16, 132, 4, 142, 123, 216, 219, 233, 248, 89]
}

pub fn associated_token_program_id() -> (r: Addr)
    ensures
        r@ == associated_token_program_bytes(),
{
    let a = Addr {
        bytes: [140u8, 151, 37, 143, 78, 36, 137, 241, 187, 61, 16, 41, 20, 142, 13, 131, 11, 90,
            19, 153, 218, 255, 16, 132, 4, 142, 123, 216, 219, 233, 248, 89],
    };
    proof {
        assert(a@ =~= associated_token_program_bytes());
    }
    a
}

/// The native mint's address bytes.
pub open spec fn native_mint_bytes() -> Seq<u8> {
    seq![6u8, 155, 136, 87, 254, 171, 129, 132, 251, 104, 127, 99, 70, 24, 192, 53, 218, 196, 57,
        220, 26, 235, 59, 85, 152, 160, 240, 0, 0, 0, 0, 1]
}

pub fn native_mint_id() -> (r: Addr)
    ensures
        r@ == native_mint_bytes(),
{
    let a = Addr {
        bytes: [6u8, 155, 136, 87, 254, 171, 129, 132, 251, 104, 127, 99, 70, 24, 192, 53, 218,
            196, 57, 220, 26, 235, 59, 85, 152, 160, 240, 0, 0, 0, 0, 1],
    };
    proof {
        assert(a@ =~= native_mint_bytes());
    }
    a
}

/// The rent sysvar's address bytes.
pub open spec fn rent_sysvar_bytes() -> Seq<u8> {
    seq![6u8, 167, 213, 23, 25, 44, 92, 81, 33, 140, 201, 76, 61, 74, 241, 127, 88, 218, 238, 8,
        155, 161, 253, 68, 227, 219, 217, 138, 0, 0, 0, 0]
}

pub fn rent_sysvar_id() -> (r: Addr)
    ensures
        r@ == rent_sysvar_bytes(),
{
    let a = Addr {
        bytes: [6u8, 167, 213, 23, 25, 44, 92, 81, 33, 140, 201, 76, 61, 74, 241, 127, 88, 218,
            238, 8, 155, 161, 253, 68, 227, 219, 217, 138, 0, 0, 0, 0],
    };
    proof {
        assert(a@ =~= rent_sysvar_bytes());
    }
    a
}

/// The instructions sysvar's address bytes; the engine fills this account
/// itself, so the store never supplies it.
pub open spec fn instructions_sysvar_bytes() -> Seq<u8> {
    seq![6u8, 167, 213, 23, 24, 123, 209, 102, 53, 218, 212, 4, 85, 253, 194, 192, 193, 36, 198,
        143, 33, 86, 117, 165, 219, 186, 203, 95, 8, 0, 0, 0]
}

pub fn instructions_sysvar_id() -> (r: Addr)
    ensures
        r@ == instructions_sysvar_bytes(),
{
    let a = Addr {
        bytes: [6u8, 167, 213, 23, 24, 123, 209, 102, 53, 218, 212, 4, 85, 253, 194, 192, 193, 36,
            198, 143, 33, 86, 117, 165, 219, 186, 203, 95, 8, 0, 0, 0],
    };
    proof {
        assert(a@ =~= instructions_sysvar_bytes());
    }
    a
}

/// The first BPF loader's address bytes.
pub open spec fn loader_v1_bytes() -> Seq<u8> {
    seq![2u8, 168, 246, 145, 78, 136, 161, 107, 189, 35, 149, 133, 95, 100, 4, 217, 180, 244, 86,
        183, 130, 27, 176, 20, 87, 73, 66, 140, 0, 0, 0, 0]
}

pub fn loader_v1_id() -> (r: Addr)
    ensures
        r@ == loader_v1_bytes(),
{
    let a = Addr {
        bytes: [2u8, 168, 246, 145, 78, 136, 161, 107, 189, 35, 149, 133, 95, 100, 4, 217, 180,
            244, 86, 183, 130, 27, 176, 20, 87, 73, 66, 140, 0, 0, 0, 0],
    };
    proof {
        assert(a@ =~= loader_v1_bytes());
    }
    a
}

/// The second BPF loader's address bytes.
pub open spec fn loader_v2_bytes() -> Seq<u8> {
    seq![2u8, 168, 246, 145, 78, 136, 161, 110, 57, 90, 225, 40, 148, 143, 250, 105, 86, 147, 55,
        104, 24, 221, 71, 67, 82, 33, 243, 198, 0, 0, 0, 0]
}

pub fn loader_v2_id() -> (r: Addr)
    ensures
        r@ == loader_v2_bytes(),
{
    let a = Addr {
        bytes: [2u8, 168, 246, 145, 78, 136, 161, 110, 57, 90, 225, 40, 148, 143, 250, 105, 86,
            147, 55, 104, 24, 221, 71, 67, 82, 33, 243, 198, 0, 0, 0, 0],
    };
    proof {
        assert(a@ =~= loader_v2_bytes());
    }
    a
}

/// The upgradeable BPF loader's address bytes.
pub open spec fn loader_v3_bytes() -> Seq<u8> {
    seq![2u8, 168, 246, 145, 78, 136, 161, 176, 226, 16, 21, 62, 247, 99, 174, 43, 0, 194, 185,
        61, 22, 193, 36, 210, 192, 83, 122, 16, 4, 128, 0, 0]
}

pub fn loader_v3_id() -> (r: Addr)
    ensures
        r@ == loader_v3_bytes(),
{
    let a = Addr {
        bytes: [2u8, 168, 246, 145, 78, 136, 161, 176, 226, 16, 21, 62, 247, 99, 174, 43, 0, 194,
            185, 61, 22, 193, 36, 210, 192, 83, 122, 16, 4, 128, 0, 0],
    };
    proof {
        assert(a@ =~= loader_v3_bytes());
    }
    a
}

} // verus!
