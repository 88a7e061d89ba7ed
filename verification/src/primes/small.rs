//! Small primes, and the modulus of the base field. Powers are
//! built by squaring and multiplying; every step gives its quotient and its
//! remainder.
use crate::primes::{
    leaves, lemma_leaves_first, lemma_leaves_next, lemma_leaves_square, lemma_of_prime_order,
    lemma_prime_by_one, lemma_prime_by_trial, lemma_prime_by_two, lemma_undivided_next, prime,
    undivided,
};
use vstd::prelude::*;

verus! {

/// The number 151 is prime.
pub proof fn lemma_prime_151()
    ensures
        prime(151),
{
    lemma_undivided_next(151, 2, 75, 1);
    lemma_undivided_next(151, 3, 50, 1);
    lemma_undivided_next(151, 4, 37, 3);
    lemma_undivided_next(151, 5, 30, 1);
    lemma_undivided_next(151, 6, 25, 1);
    lemma_undivided_next(151, 7, 21, 4);
    lemma_undivided_next(151, 8, 18, 7);
    lemma_undivided_next(151, 9, 16, 7);
    lemma_undivided_next(151, 10, 15, 1);
    lemma_undivided_next(151, 11, 13, 8);
    lemma_undivided_next(151, 12, 12, 7);
    lemma_prime_by_trial(151, 12, 13);
}

/// The number 331 is prime.
pub proof fn lemma_prime_331()
    ensures
        prime(331),
{
    lemma_undivided_next(331, 2, 165, 1);
    lemma_undivided_next(331, 3, 110, 1);
    lemma_undivided_next(331, 4, 82, 3);
    lemma_undivided_next(331, 5, 66, 1);
    lemma_undivided_next(331, 6, 55, 1);
    lemma_undivided_next(331, 7, 47, 2);
    lemma_undivided_next(331, 8, 41, 3);
    lemma_undivided_next(331, 9, 36, 7);
    lemma_undivided_next(331, 10, 33, 1);
    lemma_undivided_next(331, 11, 30, 1);
    lemma_undivided_next(331, 12, 27, 7);
    lemma_undivided_next(331, 13, 25, 6);
    lemma_undivided_next(331, 14, 23, 9);
    lemma_undivided_next(331, 15, 22, 1);
    lemma_undivided_next(331, 16, 20, 11);
    lemma_undivided_next(331, 17, 19, 8);
    lemma_undivided_next(331, 18, 18, 7);
    lemma_prime_by_trial(331, 18, 19);
}

/// A power of an element, step by step.
proof fn power_2147483647_to_151_0()
    ensures
        leaves(0x212d4132int, 0x97nat, 0x1int, 0x7fffffffint),
{
    let (b, m) = (0x212d4132int, 0x7fffffffint);
    lemma_leaves_first(b, m);
    let e = 1nat;
    let e = lemma_leaves_square(b, e, 0x212d4132int, m, 0x899659dint, 0x68c7d361int);
    let e = lemma_leaves_square(b, e, 0x68c7d361int, m, 0x55c5ef72int, 0x751cfa33int);
    let e = lemma_leaves_square(b, e, 0x751cfa33int, m, 0x6b26fff5int, 0x38d6a61eint);
    let e = lemma_leaves_next(b, e, 0x38d6a61eint, m, 0xebb6f3dint, 0x3a1b7f19int);
    let e = lemma_leaves_square(b, e, 0x3a1b7f19int, m, 0x1a60f116int, 0x7cc0c187int);
    let e = lemma_leaves_square(b, e, 0x7cc0c187int, m, 0x7996993cint, 0x1e636e6dint);
    let e = lemma_leaves_next(b, e, 0x1e636e6dint, m, 0x7e060e7int, 0x2c7e9f31int);
    let e = lemma_leaves_square(b, e, 0x2c7e9f31int, m, 0xf778ab3int, 0x7eb17214int);
    let e = lemma_leaves_next(b, e, 0x7eb17214int, m, 0x20d68a53int, 0xef9e63bint);
    let e = lemma_leaves_square(b, e, 0xef9e63bint, m, 0x1c09240int, 0x2394a3d9int);
    let e = lemma_leaves_next(b, e, 0x2394a3d9int, m, 0x938e69fint, 0x1int);
}

/// A power of an element, step by step.
proof fn power_2147483647_to_331_0()
    ensures
        leaves(0x103840e9int, 0x14bnat, 0x1int, 0x7fffffffint),
{
    let (b, m) = (0x103840e9int, 0x7fffffffint);
    lemma_leaves_first(b, m);
    let e = 1nat;
    let e = lemma_leaves_square(b, e, 0x103840e9int, m, 0x20e28f3int, 0x18737d04int);
    let e = lemma_leaves_square(b, e, 0x18737d04int, m, 0x4abb714int, 0x53509f24int);
    let e = lemma_leaves_next(b, e, 0x53509f24int, m, 0xa8eb16aint, 0x1698892eint);
    let e = lemma_leaves_square(b, e, 0x1698892eint, m, 0x3fd24eeint, 0x1c1f6932int);
    let e = lemma_leaves_square(b, e, 0x1c1f6932int, m, 0x62dc5bbint, 0x1b83d37fint);
    let e = lemma_leaves_square(b, e, 0x1b83d37fint, m, 0x5ea24fdint, 0x729ebdfeint);
    let e = lemma_leaves_next(b, e, 0x729ebdfeint, m, 0xe863753int, 0x10a381int);
    let e = lemma_leaves_square(b, e, 0x10a381int, m, 0x229int, 0x588d892aint);
    let e = lemma_leaves_square(b, e, 0x588d892aint, m, 0x3d43391aint, 0x7f0533feint);
    let e = lemma_leaves_next(b, e, 0x7f0533feint, m, 0x10187930int, 0x38644b5eint);
    let e = lemma_leaves_square(b, e, 0x38644b5eint, m, 0x18d81088int, 0x3078470cint);
    let e = lemma_leaves_next(b, e, 0x3078470cint, m, 0x6245615int, 0x1int);
}

/// The number 2147483647 is prime.
pub proof fn lemma_prime_2147483647()
    ensures
        prime(0x7fffffffint),
{
    lemma_prime_151();
    lemma_prime_331();
    power_2147483647_to_151_0();
    lemma_of_prime_order(
        0x212d4132int,
        0x97int,
        0x7b5b590bint,
        0x7fffffffint,
        0x1ff929e6int,
    );
    power_2147483647_to_331_0();
    lemma_of_prime_order(
        0x103840e9int,
        0x14bint,
        0x188872f0int,
        0x7fffffffint,
        0x31bd681int,
    );
    lemma_prime_by_two(
        0x7fffffffint,
        0x212d4132int,
        0x97int,
        0x7b5b590bint,
        0x103840e9int,
        0x14bint,
        0x188872f0int,
    );
}

/// The number 11 is prime.
pub proof fn lemma_prime_11()
    ensures
        prime(11),
{
    lemma_undivided_next(11, 2, 5, 1);
    lemma_undivided_next(11, 3, 3, 2);
    lemma_prime_by_trial(11, 3, 4);
}

/// The number 157 is prime.
pub proof fn lemma_prime_157()
    ensures
        prime(157),
{
    lemma_undivided_next(157, 2, 78, 1);
    lemma_undivided_next(157, 3, 52, 1);
    lemma_undivided_next(157, 4, 39, 1);
    lemma_undivided_next(157, 5, 31, 2);
    lemma_undivided_next(157, 6, 26, 1);
    lemma_undivided_next(157, 7, 22, 3);
    lemma_undivided_next(157, 8, 19, 5);
    lemma_undivided_next(157, 9, 17, 4);
    lemma_undivided_next(157, 10, 15, 7);
    lemma_undivided_next(157, 11, 14, 3);
    lemma_undivided_next(157, 12, 13, 1);
    lemma_prime_by_trial(157, 12, 13);
}

/// A power of an element, step by step.
proof fn power_3769_to_157_0()
    ensures
        leaves(0x575int, 0x9dnat, 0x1int, 0xeb9int),
{
    let (b, m) = (0x575int, 0xeb9int);
    lemma_leaves_first(b, m);
    let e = 1nat;
    let e = lemma_leaves_square(b, e, 0x575int, m, 0x205int, 0xbdcint);
    let e = lemma_leaves_square(b, e, 0xbdcint, m, 0x98dint, 0x82bint);
    let e = lemma_leaves_square(b, e, 0x82bint, m, 0x488int, 0xf1int);
    let e = lemma_leaves_next(b, e, 0xf1int, m, 0x59int, 0x4d4int);
    let e = lemma_leaves_square(b, e, 0x4d4int, m, 0x195int, 0x4e3int);
    let e = lemma_leaves_next(b, e, 0x4e3int, m, 0x1cfint, 0xa28int);
    let e = lemma_leaves_square(b, e, 0xa28int, m, 0x701int, 0x887int);
    let e = lemma_leaves_next(b, e, 0x887int, m, 0x329int, 0x212int);
    let e = lemma_leaves_square(b, e, 0x212int, m, 0x4aint, 0x7caint);
    let e = lemma_leaves_square(b, e, 0x7caint, m, 0x41eint, 0xdb6int);
    let e = lemma_leaves_next(b, e, 0xdb6int, m, 0x515int, 0x1int);
}

/// The number 3769 is prime.
pub proof fn lemma_prime_3769()
    ensures
        prime(0xeb9int),
{
    lemma_prime_157();
    power_3769_to_157_0();
    lemma_of_prime_order(
        0x575int,
        0x9dint,
        0x76aint,
        0xeb9int,
        0x2bfint,
    );
    lemma_prime_by_one(
        0xeb9int,
        0x575int,
        0x9dint,
        0x76aint,
    );
}

/// A power of an element, step by step.
proof fn power_204061199_to_11_0()
    ensures
        leaves(0x356bcd9int, 0xbnat, 0x1int, 0xc29ba0fint),
{
    let (b, m) = (0x356bcd9int, 0xc29ba0fint);
    lemma_leaves_first(b, m);
    let e = 1nat;
    let e = lemma_leaves_square(b, e, 0x356bcd9int, m, 0xeaa182int, 0x6318553int);
    let e = lemma_leaves_square(b, e, 0x6318553int, m, 0x3275a54int, 0x4d205fdint);
    let e = lemma_leaves_next(b, e, 0x4d205fdint, m, 0x152bf49int, 0xae5a02eint);
    let e = lemma_leaves_square(b, e, 0xae5a02eint, m, 0x9c34274int, 0x9385b78int);
    let e = lemma_leaves_next(b, e, 0x9385b78int, m, 0x287eed9int, 0x1int);
}

/// A power of an element, step by step.
proof fn power_204061199_to_3769_0()
    ensures
        leaves(0x37bdd17int, 0xeb9nat, 0x1int, 0xc29ba0fint),
{
    let (b, m) = (0x37bdd17int, 0xc29ba0fint);
    lemma_leaves_first(b, m);
    let e = 1nat;
    let e = lemma_leaves_square(b, e, 0x37bdd17int, m, 0xff74c7int, 0xb5b4a68int);
    let e = lemma_leaves_next(b, e, 0xb5b4a68int, m, 0x340bbf4int, 0x8f92c0cint);
    let e = lemma_leaves_square(b, e, 0x8f92c0cint, m, 0x69ec0e7int, 0x277fd07int);
    let e = lemma_leaves_next(b, e, 0x277fd07int, m, 0xb5052cint, 0x12a810dint);
    let e = lemma_leaves_square(b, e, 0x12a810dint, m, 0x1c9de2int, 0x5bca66bint);
    let e = lemma_leaves_square(b, e, 0x5bca66bint, m, 0x2b4b7adint, 0xa977b96int);
    let e = lemma_leaves_next(b, e, 0xa977b96int, m, 0x308a626int, 0x20f4040int);
    let e = lemma_leaves_square(b, e, 0x20f4040int, m, 0x5947afint, 0x548b6bfint);
    let e = lemma_leaves_square(b, e, 0x548b6bfint, m, 0x24baac6int, 0x5ab44e7int);
    let e = lemma_leaves_next(b, e, 0x5ab44e7int, m, 0x19fafbeint, 0x162439fint);
    let e = lemma_leaves_square(b, e, 0x162439fint, m, 0x284e6fint, 0x6785e40int);
    let e = lemma_leaves_next(b, e, 0x6785e40int, m, 0x1da6ed4int, 0x6a73154int);
    let e = lemma_leaves_square(b, e, 0x6a73154int, m, 0x3a3a341int, 0x87c78c1int);
    let e = lemma_leaves_next(b, e, 0x87c78c1int, m, 0x26e42a1int, 0x68094e8int);
    let e = lemma_leaves_square(b, e, 0x68094e8int, m, 0x379e05eint, 0x666a0beint);
    let e = lemma_leaves_square(b, e, 0x666a0beint, m, 0x35e57e1int, 0x6ec6cd5int);
    let e = lemma_leaves_square(b, e, 0x6ec6cd5int, m, 0x3f0eaaaint, 0x252543int);
    let e = lemma_leaves_next(b, e, 0x252543int, m, 0xaa3bcint, 0x1int);
}

/// The number 204061199 is prime.
pub proof fn lemma_prime_204061199()
    ensures
        prime(0xc29ba0fint),
{
    lemma_prime_11();
    lemma_prime_3769();
    power_204061199_to_11_0();
    lemma_of_prime_order(
        0x356bcd9int,
        0xbint,
        0xac8bb87int,
        0xc29ba0fint,
        0x2f5d6a9int,
    );
    power_204061199_to_3769_0();
    lemma_of_prime_order(
        0x37bdd17int,
        0xeb9int,
        0x67c75d5int,
        0xc29ba0fint,
        0x1db9ae3int,
    );
    lemma_prime_by_two(
        0xc29ba0fint,
        0x356bcd9int,
        0xbint,
        0xac8bb87int,
        0x37bdd17int,
        0xeb9int,
        0x67c75d5int,
    );
}

/// A power of an element, step by step.
proof fn power_34282281433_to_204061199_0()
    ensures
        leaves(0x6f58fce4bint, 0x1853nat, 0x250db348eint, 0x7fb6219d9int),
{
    let (b, m) = (0x6f58fce4bint, 0x7fb6219d9int);
    lemma_leaves_first(b, m);
    let e = 1nat;
    let e = lemma_leaves_square(b, e, 0x6f58fce4bint, m, 0x61149ae50int, 0x5a7ec3829int);
    let e = lemma_leaves_next(b, e, 0x5a7ec3829int, m, 0x4ee65ff3dint, 0x35490224eint);
    let e = lemma_leaves_square(b, e, 0x35490224eint, m, 0x163b73f35int, 0x1378e0ed7int);
    let e = lemma_leaves_square(b, e, 0x1378e0ed7int, m, 0x2f80b8cdint, 0x445bd8dccint);
    let e = lemma_leaves_square(b, e, 0x445bd8dccint, m, 0x2496f5fc9int, 0x2c80d882fint);
    let e = lemma_leaves_square(b, e, 0x2c80d882fint, m, 0xf8209a77int, 0x3bf16ac2int);
    let e = lemma_leaves_square(b, e, 0x3bf16ac2int, m, 0x1c22925int, 0x41f05bda7int);
    let e = lemma_leaves_next(b, e, 0x41f05bda7int, m, 0x397d749beint, 0x23826e1dfint);
    let e = lemma_leaves_square(b, e, 0x23826e1dfint, m, 0x9df8bc56int, 0x7c855b55bint);
    let e = lemma_leaves_square(b, e, 0x7c855b55bint, m, 0x7968fcb5aint, 0x45db4a50fint);
    let e = lemma_leaves_next(b, e, 0x45db4a50fint, m, 0x3ce7e1494int, 0x7099587f1int);
    let e = lemma_leaves_square(b, e, 0x7099587f1int, m, 0x63465d2fbint, 0x3fb9b71eint);
    let e = lemma_leaves_square(b, e, 0x3fb9b71eint, m, 0x1fcc376int, 0x60cd3b27eint);
    let e = lemma_leaves_square(b, e, 0x60cd3b27eint, m, 0x495f79b8dint, 0x37019d67fint);
    let e = lemma_leaves_next(b, e, 0x37019d67fint, m, 0x2ff55184aint, 0x36548387bint);
    let e = lemma_leaves_square(b, e, 0x36548387bint, m, 0x171cdd65cint, 0xb045b1dint);
    let e = lemma_leaves_next(b, e, 0xb045b1dint, m, 0x99afad9int, 0x250db348eint);
}

/// A power of an element, step by step.
proof fn power_34282281433_to_204061199_1()
    ensures
        leaves(0x6f58fce4bint, 0x1853741nat, 0x4da0b1823int, 0x7fb6219d9int),
{
    let (b, m) = (0x6f58fce4bint, 0x7fb6219d9int);
    power_34282281433_to_204061199_0();
    let e = 0x1853nat;
    let e = lemma_leaves_square(b, e, 0x250db348eint, m, 0xac0215e0int, 0x6b41693e4int);
    let e = lemma_leaves_square(b, e, 0x6b41693e4int, m, 0x5a1378fb5int, 0x3d13425a3int);
    let e = lemma_leaves_next(b, e, 0x3d13425a3int, m, 0x353fe466eint, 0x16e16bf83int);
    let e = lemma_leaves_square(b, e, 0x16e16bf83int, m, 0x41967b79int, 0x6dbd94278int);
    let e = lemma_leaves_next(b, e, 0x6dbd94278int, m, 0x5fade90b8int, 0x303f06530int);
    let e = lemma_leaves_square(b, e, 0x303f06530int, m, 0x1239e8778int, 0xd1735c48int);
    let e = lemma_leaves_next(b, e, 0xd1735c48int, m, 0xb69d09fbint, 0x599190055int);
    let e = lemma_leaves_square(b, e, 0x599190055int, m, 0x3ed152549int, 0x7ca176058int);
    let e = lemma_leaves_square(b, e, 0x7ca176058int, m, 0x799fd0c9cint, 0x24e9f3204int);
    let e = lemma_leaves_next(b, e, 0x24e9f3204int, m, 0x202f1d64eint, 0x14656990eint);
    let e = lemma_leaves_square(b, e, 0x14656990eint, m, 0x341e2923int, 0x1a8ee7319int);
    let e = lemma_leaves_square(b, e, 0x1a8ee7319int, m, 0x585dd676int, 0x52993286bint);
    let e = lemma_leaves_square(b, e, 0x52993286bint, m, 0x356bd466aint, 0x5d25e92dfint);
    let e = lemma_leaves_square(b, e, 0x5d25e92dfint, m, 0x43f0572c0int, 0x2eab41981int);
    let e = lemma_leaves_square(b, e, 0x2eab41981int, m, 0x110dd3ca9int, 0xe1cb86c0int);
    let e = lemma_leaves_square(b, e, 0xe1cb86c0int, m, 0x18f352b3int, 0x76892fb45int);
    let e = lemma_leaves_next(b, e, 0x76892fb45int, m, 0x675904334int, 0x4da0b1823int);
}

/// A power of an element, step by step.
proof fn power_34282281433_to_204061199_2()
    ensures
        leaves(0x6f58fce4bint, 0xc29ba0fnat, 0x1int, 0x7fb6219d9int),
{
    let (b, m) = (0x6f58fce4bint, 0x7fb6219d9int);
    power_34282281433_to_204061199_1();
    let e = 0x1853741nat;
    let e = lemma_leaves_square(b, e, 0x4da0b1823int, m, 0x2f2f5a494int, 0x2a5559f55int);
    let e = lemma_leaves_next(b, e, 0x2a5559f55int, m, 0x24e8bf315int, 0x3cb5efa1aint);
    let e = lemma_leaves_square(b, e, 0x3cb5efa1aint, m, 0x1cdc3afecint, 0x498089f98int);
    let e = lemma_leaves_next(b, e, 0x498089f98int, m, 0x40158cde9int, 0x50246c607int);
    let e = lemma_leaves_square(b, e, 0x50246c607int, m, 0x324a97c07int, 0x3088e0342int);
    let e = lemma_leaves_next(b, e, 0x3088e0342int, m, 0x2a50dc0ddint, 0x1int);
}

/// The number 34282281433 is prime.
pub proof fn lemma_prime_34282281433()
    ensures
        prime(0x7fb6219d9int),
{
    lemma_prime_204061199();
    power_34282281433_to_204061199_2();
    lemma_of_prime_order(
        0x6f58fce4bint,
        0xc29ba0fint,
        0x1534f87caint,
        0x7fb6219d9int,
        0x127d5969bint,
    );
    lemma_prime_by_one(
        0x7fb6219d9int,
        0x6f58fce4bint,
        0xc29ba0fint,
        0x1534f87caint,
    );
}

/// The number 173 is prime.
pub proof fn lemma_prime_173()
    ensures
        prime(173),
{
    lemma_undivided_next(173, 2, 86, 1);
    lemma_undivided_next(173, 3, 57, 2);
    lemma_undivided_next(173, 4, 43, 1);
    lemma_undivided_next(173, 5, 34, 3);
    lemma_undivided_next(173, 6, 28, 5);
    lemma_undivided_next(173, 7, 24, 5);
    lemma_undivided_next(173, 8, 21, 5);
    lemma_undivided_next(173, 9, 19, 2);
    lemma_undivided_next(173, 10, 17, 3);
    lemma_undivided_next(173, 11, 15, 8);
    lemma_undivided_next(173, 12, 14, 5);
    lemma_undivided_next(173, 13, 13, 4);
    lemma_prime_by_trial(173, 13, 14);
}

/// The number 919 is prime.
pub proof fn lemma_prime_919()
    ensures
        prime(919),
{
    lemma_undivided_next(919, 2, 459, 1);
    lemma_undivided_next(919, 3, 306, 1);
    lemma_undivided_next(919, 4, 229, 3);
    lemma_undivided_next(919, 5, 183, 4);
    lemma_undivided_next(919, 6, 153, 1);
    lemma_undivided_next(919, 7, 131, 2);
    lemma_undivided_next(919, 8, 114, 7);
    lemma_undivided_next(919, 9, 102, 1);
    lemma_undivided_next(919, 10, 91, 9);
    lemma_undivided_next(919, 11, 83, 6);
    lemma_undivided_next(919, 12, 76, 7);
    lemma_undivided_next(919, 13, 70, 9);
    lemma_undivided_next(919, 14, 65, 9);
    lemma_undivided_next(919, 15, 61, 4);
    lemma_undivided_next(919, 16, 57, 7);
    lemma_undivided_next(919, 17, 54, 1);
    lemma_undivided_next(919, 18, 51, 1);
    lemma_undivided_next(919, 19, 48, 7);
    lemma_undivided_next(919, 20, 45, 19);
    lemma_undivided_next(919, 21, 43, 16);
    lemma_undivided_next(919, 22, 41, 17);
    lemma_undivided_next(919, 23, 39, 22);
    lemma_undivided_next(919, 24, 38, 7);
    lemma_undivided_next(919, 25, 36, 19);
    lemma_undivided_next(919, 26, 35, 9);
    lemma_undivided_next(919, 27, 34, 1);
    lemma_undivided_next(919, 28, 32, 23);
    lemma_undivided_next(919, 29, 31, 20);
    lemma_undivided_next(919, 30, 30, 19);
    lemma_prime_by_trial(919, 30, 31);
}

/// A power of an element, step by step.
proof fn power_3677_to_919_0()
    ensures
        leaves(0x10int, 0x397nat, 0x1int, 0xe5dint),
{
    let (b, m) = (0x10int, 0xe5dint);
    lemma_leaves_first(b, m);
    let e = 1nat;
    let e = lemma_leaves_square(b, e, 0x10int, m, 0x0int, 0x100int);
    let e = lemma_leaves_next(b, e, 0x100int, m, 0x1int, 0x1a3int);
    let e = lemma_leaves_square(b, e, 0x1a3int, m, 0x2fint, 0xab6int);
    let e = lemma_leaves_next(b, e, 0xab6int, m, 0xbint, 0xd61int);
    let e = lemma_leaves_square(b, e, 0xd61int, m, 0xc76int, 0x3e3int);
    let e = lemma_leaves_square(b, e, 0x3e3int, m, 0x10dint, 0x390int);
    let e = lemma_leaves_square(b, e, 0x390int, m, 0xe2int, 0x2e6int);
    let e = lemma_leaves_next(b, e, 0x2e6int, m, 0x3int, 0x349int);
    let e = lemma_leaves_square(b, e, 0x349int, m, 0xc0int, 0x511int);
    let e = lemma_leaves_square(b, e, 0x511int, m, 0x1c9int, 0x71cint);
    let e = lemma_leaves_next(b, e, 0x71cint, m, 0x7int, 0xd35int);
    let e = lemma_leaves_square(b, e, 0xd35int, m, 0xc24int, 0xbe5int);
    let e = lemma_leaves_next(b, e, 0xbe5int, m, 0xdint, 0x397int);
    let e = lemma_leaves_square(b, e, 0x397int, m, 0xe5int, 0x9e0int);
    let e = lemma_leaves_next(b, e, 0x9e0int, m, 0xbint, 0x1int);
}

/// The number 3677 is prime.
pub proof fn lemma_prime_3677()
    ensures
        prime(0xe5dint),
{
    lemma_prime_919();
    power_3677_to_919_0();
    lemma_of_prime_order(
        0x10int,
        0x397int,
        0x6b4int,
        0xe5dint,
        0x7int,
    );
    lemma_prime_by_one(
        0xe5dint,
        0x10int,
        0x397int,
        0x6b4int,
    );
}

/// A power of an element, step by step.
proof fn power_66417393611_to_173_0()
    ensures
        leaves(0xa05122f1fint, 0xadnat, 0x1int, 0xf76c8ffcbint),
{
    let (b, m) = (0xa05122f1fint, 0xf76c8ffcbint);
    lemma_leaves_first(b, m);
    let e = 1nat;
    let e = lemma_leaves_square(b, e, 0xa05122f1fint, m, 0x67e05b89eint, 0xd2e299e77int);
    let e = lemma_leaves_square(b, e, 0xd2e299e77int, m, 0xb3be01e37int, 0x23a6c5cb4int);
    let e = lemma_leaves_next(b, e, 0x23a6c5cb4int, m, 0x1719a32f2int, 0x5f9b6d1e6int);
    let e = lemma_leaves_square(b, e, 0x5f9b6d1e6int, m, 0x24f18c9caint, 0x75fa92176int);
    let e = lemma_leaves_square(b, e, 0x75fa92176int, m, 0x3841707ffint, 0xb4db94a2fint);
    let e = lemma_leaves_next(b, e, 0xb4db94a2fint, m, 0x752f88e92int, 0xa813020ebint);
    let e = lemma_leaves_square(b, e, 0xa813020ebint, m, 0x722c16129int, 0xa3533b536int);
    let e = lemma_leaves_next(b, e, 0xa3533b536int, m, 0x69d3560dfint, 0x76e49e9b5int);
    let e = lemma_leaves_square(b, e, 0x76e49e9b5int, m, 0x392181ac5int, 0x316e584c2int);
    let e = lemma_leaves_square(b, e, 0x316e584c2int, m, 0x9e01e535int, 0x671b416fdint);
    let e = lemma_leaves_next(b, e, 0x671b416fdint, m, 0x42cea5aa6int, 0x1int);
}

/// A power of an element, step by step.
proof fn power_66417393611_to_3677_0()
    ensures
        leaves(0xf6b013cdeint, 0xe5dnat, 0x1int, 0xf76c8ffcbint),
{
    let (b, m) = (0xf6b013cdeint, 0xf76c8ffcbint);
    lemma_leaves_first(b, m);
    let e = 1nat;
    let e = lemma_leaves_square(b, e, 0xf6b013cdeint, m, 0xf5f427351int, 0x2f45db049int);
    let e = lemma_leaves_next(b, e, 0x2f45db049int, m, 0x2f21d7f32int, 0xd47b250a8int);
    let e = lemma_leaves_square(b, e, 0xd47b250a8int, m, 0xb67910757int, 0x406c0f343int);
    let e = lemma_leaves_next(b, e, 0x406c0f343int, m, 0x403afbb96int, 0x75f357e28int);
    let e = lemma_leaves_square(b, e, 0x75f357e28int, m, 0x383a8c3fdint, 0xded06f9a1int);
    let e = lemma_leaves_square(b, e, 0xded06f9a1int, m, 0xc8a6f281aint, 0xef18fe4a3int);
    let e = lemma_leaves_square(b, e, 0xef18fe4a3int, m, 0xe70d28273int, 0x70d96c198int);
    let e = lemma_leaves_next(b, e, 0x70d96c198int, m, 0x708374700int, 0xa5c2534d0int);
    let e = lemma_leaves_square(b, e, 0xa5c2534d0int, m, 0x6f0c6af38int, 0x2452f6f98int);
    let e = lemma_leaves_square(b, e, 0x2452f6f98int, m, 0x5552bf69int, 0xa1525cafdint);
    let e = lemma_leaves_next(b, e, 0xa1525cafdint, m, 0xa0d77805fint, 0x7f17ce711int);
    let e = lemma_leaves_square(b, e, 0x7f17ce711int, m, 0x41487e2d5int, 0xaa3eca53aint);
    let e = lemma_leaves_next(b, e, 0xaa3eca53aint, m, 0xa9bd1968dint, 0x290da0b7dint);
    let e = lemma_leaves_square(b, e, 0x290da0b7dint, m, 0x6cfc8c61int, 0xd3880b1eint);
    let e = lemma_leaves_next(b, e, 0xd3880b1eint, m, 0xd2e6e6a7int, 0x17e616c97int);
    let e = lemma_leaves_square(b, e, 0x17e616c97int, m, 0x24ef2d3cint, 0x595e61e7dint);
    let e = lemma_leaves_square(b, e, 0x595e61e7dint, m, 0x204796d11int, 0x9c3081d8eint);
    let e = lemma_leaves_next(b, e, 0x9c3081d8eint, m, 0x9bb986109int, 0x1int);
}

/// The number 66417393611 is prime.
pub proof fn lemma_prime_66417393611()
    ensures
        prime(0xf76c8ffcbint),
{
    lemma_prime_173();
    lemma_prime_3677();
    power_66417393611_to_173_0();
    lemma_of_prime_order(
        0xa05122f1fint,
        0xadint,
        0x313c2900dint,
        0xf76c8ffcbint,
        0x1fe6ca2efint,
    );
    power_66417393611_to_3677_0();
    lemma_of_prime_order(
        0xf6b013cdeint,
        0xe5dint,
        0xb8335656dint,
        0xf76c8ffcbint,
        0xb7a703e48int,
    );
    lemma_prime_by_two(
        0xf76c8ffcbint,
        0xa05122f1fint,
        0xadint,
        0x313c2900dint,
        0xf6b013cdeint,
        0xe5dint,
        0xb8335656dint,
    );
}

/// A power of an element, step by step.
proof fn power_44_bits_to_66417393611_0()
    ensures
        leaves(0xa027eda446cint, 0x1eednat, 0x4805c015755int, 0xa44e179dccfint),
{
    let (b, m) = (0xa027eda446cint, 0xa44e179dccfint);
    lemma_leaves_first(b, m);
    let e = 1nat;
    let e = lemma_leaves_square(b, e, 0xa027eda446cint, m, 0x9c1c961dc7dint, 0x521e687d87dint);
    let e = lemma_leaves_next(b, e, 0x521e687d87dint, m, 0x500b8b58055int, 0x4458509b801int);
    let e = lemma_leaves_square(b, e, 0x4458509b801int, m, 0x1c6dd62ae54int, 0x6df74044a15int);
    let e = lemma_leaves_next(b, e, 0x6df74044a15int, m, 0x6b305e1c307int, 0x39366e91e33int);
    let e = lemma_leaves_square(b, e, 0x39366e91e33int, m, 0x13ec07e5517int, 0x524fa406c90int);
    let e = lemma_leaves_next(b, e, 0x524fa406c90int, m, 0x503b889ca4bint, 0x90cd8ee061bint);
    let e = lemma_leaves_square(b, e, 0x90cd8ee061bint, m, 0x7f9d9c17b36int, 0x5e5de7e3e2fint);
    let e = lemma_leaves_square(b, e, 0x5e5de7e3e2fint, m, 0x3632d4b0336int, 0x373b86ecbf7int);
    let e = lemma_leaves_next(b, e, 0x373b86ecbf7int, m, 0x35d678bfbb8int, 0x2b0c6c6fe6cint);
    let e = lemma_leaves_square(b, e, 0x2b0c6c6fe6cint, m, 0xb47644645cint, 0x636e8e2472cint);
    let e = lemma_leaves_next(b, e, 0x636e8e2472cint, m, 0x60ebc500fffint, 0x5b4dcd2a35fint);
    let e = lemma_leaves_square(b, e, 0x5b4dcd2a35fint, m, 0x32bcc39ae89int, 0x5ba1bbb407aint);
    let e = lemma_leaves_next(b, e, 0x5ba1bbb407aint, m, 0x59515f30d14int, 0x3ed02cad84cint);
    let e = lemma_leaves_square(b, e, 0x3ed02cad84cint, m, 0x18036365e9cint, 0x946dbafc66cint);
    let e = lemma_leaves_square(b, e, 0x946dbafc66cint, m, 0x8616192f48fint, 0x74232dd99efint);
    let e = lemma_leaves_next(b, e, 0x74232dd99efint, m, 0x7134661cdd6int, 0x5b9b3c714caint);
    let e = lemma_leaves_square(b, e, 0x5b9b3c714caint, m, 0x3312f797aecint, 0x4218152fa90int);
    let e = lemma_leaves_next(b, e, 0x4218152fa90int, m, 0x406ccfdf0ffint, 0x95bd437f28fint);
    let e = lemma_leaves_square(b, e, 0x95bd437f28fint, m, 0x8876ff73b00int, 0x92f14a7f6e1int);
    let e = lemma_leaves_square(b, e, 0x92f14a7f6e1int, m, 0x836a2eb6832int, 0x414f41cf953int);
    let e = lemma_leaves_next(b, e, 0x414f41cf953int, m, 0x3fa90ec0321int, 0x4805c015755int);
}

/// A power of an element, step by step.
proof fn power_44_bits_to_66417393611_1()
    ensures
        leaves(0xa027eda446cint, 0x1eed91fnat, 0x51ccff1d24int, 0xa44e179dccfint),
{
    let (b, m) = (0xa027eda446cint, 0xa44e179dccfint);
    power_44_bits_to_66417393611_0();
    let e = 0x1eednat;
    let e = lemma_leaves_square(b, e, 0x4805c015755int, m, 0x1f921d428cbint, 0x93483e67214int);
    let e = lemma_leaves_next(b, e, 0x93483e67214int, m, 0x8f90201c4d2int, 0x40f1ab8d2a2int);
    let e = lemma_leaves_square(b, e, 0x40f1ab8d2a2int, m, 0x19ab8b5e2d0int, 0x2cbafe10854int);
    let e = lemma_leaves_square(b, e, 0x2cbafe10854int, m, 0xc2d6ba4a19int, 0x485c4ccf559int);
    let e = lemma_leaves_square(b, e, 0x485c4ccf559int, m, 0x1fde2b79de4int, 0x403160edd95int);
    let e = lemma_leaves_next(b, e, 0x403160edd95int, m, 0x3e9265f45b9int, 0x517d39db245int);
    let e = lemma_leaves_square(b, e, 0x517d39db245int, m, 0x286a6378e4fint, 0x65e0b3710b8int);
    let e = lemma_leaves_square(b, e, 0x65e0b3710b8int, m, 0x3f2b66a9841int, 0x4ebcd658bb1int);
    let e = lemma_leaves_square(b, e, 0x4ebcd658bb1int, m, 0x25bb7bcc213int, 0x510c97f6f04int);
    let e = lemma_leaves_square(b, e, 0x510c97f6f04int, m, 0x27faf79e033int, 0xa0432c95ad3int);
    let e = lemma_leaves_next(b, e, 0xa0432c95ad3int, m, 0x9c3724ed118int, 0x26804fcaa9cint);
    let e = lemma_leaves_square(b, e, 0x26804fcaa9cint, m, 0x9059b4111fint, 0x4196dc12ffint);
    let e = lemma_leaves_next(b, e, 0x4196dc12ffint, m, 0x3feeda220fint, 0x882e94c5173int);
    let e = lemma_leaves_square(b, e, 0x882e94c5173int, m, 0x70df5dc63c7int, 0x883892f47c0int);
    let e = lemma_leaves_next(b, e, 0x883892f47c0int, m, 0x84c7f63b8a2int, 0x13cada1c202int);
    let e = lemma_leaves_square(b, e, 0x13cada1c202int, m, 0x2625bfaf6aint, 0x724f9b3194eint);
    let e = lemma_leaves_next(b, e, 0x724f9b3194eint, m, 0x6f6ca21ef9dint, 0xe70122b8f5int);
    let e = lemma_leaves_square(b, e, 0xe70122b8f5int, m, 0x144c7c46efint, 0x397554b5b38int);
    let e = lemma_leaves_next(b, e, 0x397554b5b38int, m, 0x3801e2fd0c4int, 0x51ccff1d24int);
}

/// A power of an element, step by step.
proof fn power_44_bits_to_66417393611_2()
    ensures
        leaves(0xa027eda446cint, 0xf76c8ffcbnat, 0x1int, 0xa44e179dccfint),
{
    let (b, m) = (0xa027eda446cint, 0xa44e179dccfint);
    power_44_bits_to_66417393611_1();
    let e = 0x1eed91fnat;
    let e = lemma_leaves_square(b, e, 0x51ccff1d24int, m, 0x28b9aa900int, 0x4c9c4be8610int);
    let e = lemma_leaves_next(b, e, 0x4c9c4be8610int, m, 0x4aad0a8c47dint, 0xa1283581adint);
    let e = lemma_leaves_square(b, e, 0xa1283581adint, m, 0x9e11c4178int, 0xa184b7dbee1int);
    let e = lemma_leaves_next(b, e, 0xa184b7dbee1int, m, 0x9d70918d39bint, 0x881992afc97int);
    let e = lemma_leaves_square(b, e, 0x881992afc97int, m, 0x70bc8d5c7c5int, 0x23fab1eccc6int);
    let e = lemma_leaves_next(b, e, 0x23fab1eccc6int, m, 0x23121a9a6dfint, 0x62252026937int);
    let e = lemma_leaves_square(b, e, 0x62252026937int, m, 0x3aa018ae858int, 0xa014384aaa9int);
    let e = lemma_leaves_next(b, e, 0xa014384aaa9int, m, 0x9c09602c43eint, 0x2dd4f06ed2aint);
    let e = lemma_leaves_square(b, e, 0x2dd4f06ed2aint, m, 0xcc8d32b639int, 0xa11eb2376cdint);
    let e = lemma_leaves_next(b, e, 0xa11eb2376cdint, m, 0x9d0d1f70719int, 0x65d4a6d5945int);
    let e = lemma_leaves_square(b, e, 0x65d4a6d5945int, m, 0x3f1c764f3e0int, 0x608e6cd5a79int);
    let e = lemma_leaves_square(b, e, 0x608e6cd5a79int, m, 0x38be281a596int, 0x86fc6bb80e7int);
    let e = lemma_leaves_square(b, e, 0x86fc6bb80e7int, m, 0x6ee614cd5e6int, 0x445f1b93377int);
    let e = lemma_leaves_next(b, e, 0x445f1b93377int, m, 0x42a51d3eebbint, 0x77b143994ffint);
    let e = lemma_leaves_square(b, e, 0x77b143994ffint, m, 0x5731744249fint, 0x7961a8c9570int);
    let e = lemma_leaves_square(b, e, 0x7961a8c9570int, m, 0x59abe10b881int, 0x303e5ae84b1int);
    let e = lemma_leaves_next(b, e, 0x303e5ae84b1int, m, 0x2f067afc5f7int, 0x9c7cf98a7f3int);
    let e = lemma_leaves_square(b, e, 0x9c7cf98a7f3int, m, 0x950b0fa3ad5int, 0x587b02d526eint);
    let e = lemma_leaves_next(b, e, 0x587b02d526eint, m, 0x563f0571ae9int, 0x1int);
}

/// A prime of 44 bits.
pub proof fn lemma_prime_44_bits()
    ensures
        prime(0xa44e179dccfint),
{
    lemma_prime_66417393611();
    power_44_bits_to_66417393611_2();
    lemma_of_prime_order(
        0xa027eda446cint,
        0xf76c8ffcbint,
        0x3dcf4686688int,
        0xa44e179dccfint,
        0x3c3fb39d379int,
    );
    lemma_prime_by_one(
        0xa44e179dccfint,
        0xa027eda446cint,
        0xf76c8ffcbint,
        0x3dcf4686688int,
    );
}

/// The number 337 is prime.
pub proof fn lemma_prime_337()
    ensures
        prime(337),
{
    lemma_undivided_next(337, 2, 168, 1);
    lemma_undivided_next(337, 3, 112, 1);
    lemma_undivided_next(337, 4, 84, 1);
    lemma_undivided_next(337, 5, 67, 2);
    lemma_undivided_next(337, 6, 56, 1);
    lemma_undivided_next(337, 7, 48, 1);
    lemma_undivided_next(337, 8, 42, 1);
    lemma_undivided_next(337, 9, 37, 4);
    lemma_undivided_next(337, 10, 33, 7);
    lemma_undivided_next(337, 11, 30, 7);
    lemma_undivided_next(337, 12, 28, 1);
    lemma_undivided_next(337, 13, 25, 12);
    lemma_undivided_next(337, 14, 24, 1);
    lemma_undivided_next(337, 15, 22, 7);
    lemma_undivided_next(337, 16, 21, 1);
    lemma_undivided_next(337, 17, 19, 14);
    lemma_undivided_next(337, 18, 18, 13);
    lemma_prime_by_trial(337, 18, 19);
}

/// A power of an element, step by step.
proof fn power_104471_to_337_0()
    ensures
        leaves(0xa30bint, 0x151nat, 0x1int, 0x19817int),
{
    let (b, m) = (0xa30bint, 0x19817int);
    lemma_leaves_first(b, m);
    let e = 1nat;
    let e = lemma_leaves_square(b, e, 0xa30bint, m, 0x4123int, 0x16054int);
    let e = lemma_leaves_square(b, e, 0x16054int, m, 0x1302fint, 0xdf57int);
    let e = lemma_leaves_next(b, e, 0xdf57int, m, 0x593aint, 0x18987int);
    let e = lemma_leaves_square(b, e, 0x18987int, m, 0x17b7cint, 0xd0dint);
    let e = lemma_leaves_square(b, e, 0xd0dint, m, 0x6aint, 0x15923int);
    let e = lemma_leaves_next(b, e, 0x15923int, m, 0x89e4int, 0x5a05int);
    let e = lemma_leaves_square(b, e, 0x5a05int, m, 0x13dbint, 0xb36cint);
    let e = lemma_leaves_square(b, e, 0xb36cint, m, 0x4ee2int, 0xef42int);
    let e = lemma_leaves_square(b, e, 0xef42int, m, 0x8c46int, 0x22baint);
    let e = lemma_leaves_square(b, e, 0x22baint, m, 0x2f4int, 0xcb38int);
    let e = lemma_leaves_next(b, e, 0xcb38int, m, 0x5131int, 0x1int);
}

/// The number 104471 is prime.
pub proof fn lemma_prime_104471()
    ensures
        prime(0x19817int),
{
    lemma_prime_337();
    power_104471_to_337_0();
    lemma_of_prime_order(
        0xa30bint,
        0x151int,
        0x6c80int,
        0x19817int,
        0x2b59int,
    );
    lemma_prime_by_one(
        0x19817int,
        0xa30bint,
        0x151int,
        0x6c80int,
    );
}

/// A power of an element, step by step.
proof fn power_3969899_to_104471_0()
    ensures
        leaves(0x200bd8int, 0x1981nat, 0x3e2dint, 0x3c936bint),
{
    let (b, m) = (0x200bd8int, 0x3c936bint);
    lemma_leaves_first(b, m);
    let e = 1nat;
    let e = lemma_leaves_square(b, e, 0x200bd8int, m, 0x10f40eint, 0xa3a66int);
    let e = lemma_leaves_next(b, e, 0xa3a66int, m, 0x56934int, 0x7d354int);
    let e = lemma_leaves_square(b, e, 0x7d354int, m, 0x102ccint, 0x34444cint);
    let e = lemma_leaves_square(b, e, 0x34444cint, m, 0x2d18f2int, 0x34136aint);
    let e = lemma_leaves_square(b, e, 0x34136aint, m, 0x2cc4bfint, 0x14ff0fint);
    let e = lemma_leaves_next(b, e, 0x14ff0fint, m, 0xb1b8dint, 0xa5eb9int);
    let e = lemma_leaves_square(b, e, 0xa5eb9int, m, 0x1c676int, 0x24ac5fint);
    let e = lemma_leaves_next(b, e, 0x24ac5fint, m, 0x1366b3int, 0x30cf57int);
    let e = lemma_leaves_square(b, e, 0x30cf57int, m, 0x27544fint, 0x30358cint);
    let e = lemma_leaves_square(b, e, 0x30358cint, m, 0x265dfeint, 0x292166int);
    let e = lemma_leaves_square(b, e, 0x292166int, m, 0x1bed5eint, 0x6445aint);
    let e = lemma_leaves_square(b, e, 0x6445aint, m, 0xa5fbint, 0xf6ebbint);
    let e = lemma_leaves_square(b, e, 0xf6ebbint, m, 0x3ee80int, 0x370d19int);
    let e = lemma_leaves_square(b, e, 0x370d19int, m, 0x3207c4int, 0x1ac185int);
    let e = lemma_leaves_square(b, e, 0x1ac185int, m, 0xbd162int, 0x2a0523int);
    let e = lemma_leaves_next(b, e, 0x2a0523int, m, 0x163ad1int, 0x3e2dint);
}

/// A power of an element, step by step.
proof fn power_3969899_to_104471_1()
    ensures
        leaves(0x200bd8int, 0x19817nat, 0x1int, 0x3c936bint),
{
    let (b, m) = (0x200bd8int, 0x3c936bint);
    power_3969899_to_104471_0();
    let e = 0x1981nat;
    let e = lemma_leaves_square(b, e, 0x3e2dint, m, 0x3fint, 0x318c94int);
    let e = lemma_leaves_square(b, e, 0x318c94int, m, 0x288795int, 0x22fb49int);
    let e = lemma_leaves_next(b, e, 0x22fb49int, m, 0x128196int, 0x22dce6int);
    let e = lemma_leaves_square(b, e, 0x22dce6int, m, 0x14107fint, 0x144c8fint);
    let e = lemma_leaves_next(b, e, 0x144c8fint, m, 0xabd1eint, 0x2d781eint);
    let e = lemma_leaves_square(b, e, 0x2d781eint, m, 0x222142int, 0x1356eeint);
    let e = lemma_leaves_next(b, e, 0x1356eeint, m, 0xa3b2dint, 0x1int);
}

/// The number 3969899 is prime.
pub proof fn lemma_prime_3969899()
    ensures
        prime(0x3c936bint),
{
    lemma_prime_104471();
    power_3969899_to_104471_1();
    lemma_of_prime_order(
        0x200bd8int,
        0x19817int,
        0x223c42int,
        0x3c936bint,
        0x121c87int,
    );
    lemma_prime_by_one(
        0x3c936bint,
        0x200bd8int,
        0x19817int,
        0x223c42int,
    );
}

/// A power of an element, step by step.
proof fn power_1002328039319_to_3969899_0()
    ensures
        leaves(0x33a6dcaeabint, 0x1e49nat, 0x9c9497933int, 0xe95f681f97int),
{
    let (b, m) = (0x33a6dcaeabint, 0xe95f681f97int);
    lemma_leaves_first(b, m);
    let e = 1nat;
    let e = lemma_leaves_square(b, e, 0x33a6dcaeabint, m, 0xb6e956d98int, 0xa30ebd991int);
    let e = lemma_leaves_next(b, e, 0xa30ebd991int, m, 0x2416d1931int, 0x2fc1b816f4int);
    let e = lemma_leaves_square(b, e, 0x2fc1b816f4int, m, 0x9c5d60610int, 0x19e6555520int);
    let e = lemma_leaves_next(b, e, 0x19e6555520int, m, 0x5bb79b757int, 0x2ac04ef0fint);
    let e = lemma_leaves_square(b, e, 0x2ac04ef0fint, m, 0x7d4df3dint, 0xc1c654f2e6int);
    let e = lemma_leaves_next(b, e, 0xc1c654f2e6int, m, 0x2ae33f807eint, 0x97694a8750int);
    let e = lemma_leaves_square(b, e, 0x97694a8750int, m, 0x623c2cfb26int, 0xc80f63bb96int);
    let e = lemma_leaves_square(b, e, 0xc80f63bb96int, m, 0xab80b2424dint, 0x5d32040d79int);
    let e = lemma_leaves_square(b, e, 0x5d32040d79int, m, 0x25377e5616int, 0x46859c1237int);
    let e = lemma_leaves_next(b, e, 0x46859c1237int, m, 0xf9bc2e181int, 0x7ab03beaa6int);
    let e = lemma_leaves_square(b, e, 0x7ab03beaa6int, m, 0x407fe66fb1int, 0x30d83d933dint);
    let e = lemma_leaves_square(b, e, 0x30d83d933dint, m, 0xa39204a69int, 0xe7a30a819aint);
    let e = lemma_leaves_square(b, e, 0xe7a30a819aint, m, 0xe5e9fb01ddint, 0xa35094b449int);
    let e = lemma_leaves_next(b, e, 0xa35094b449int, m, 0x24256412efint, 0xa9c2feecaint);
    let e = lemma_leaves_square(b, e, 0xa9c2feecaint, m, 0x7b7d448dint, 0xe18e6fb539int);
    let e = lemma_leaves_square(b, e, 0xe18e6fb539int, m, 0xda007be530int, 0x44ae62a761int);
    let e = lemma_leaves_square(b, e, 0x44ae62a761int, m, 0x14367780c7int, 0x1aacc6a460int);
    let e = lemma_leaves_next(b, e, 0x1aacc6a460int, m, 0x5e765721bint, 0x9c9497933int);
}

/// A power of an element, step by step.
proof fn power_1002328039319_to_3969899_1()
    ensures
        leaves(0x33a6dcaeabint, 0x3c936bnat, 0x1int, 0xe95f681f97int),
{
    let (b, m) = (0x33a6dcaeabint, 0xe95f681f97int);
    power_1002328039319_to_3969899_0();
    let e = 0x1e49nat;
    let e = lemma_leaves_square(b, e, 0x9c9497933int, m, 0x690e9771int, 0xe3d9d3d82int);
    let e = lemma_leaves_next(b, e, 0xe3d9d3d82int, m, 0x326dff7daint, 0x5b8bdfda40int);
    let e = lemma_leaves_square(b, e, 0x5b8bdfda40int, m, 0x23e951b91aint, 0x421862bbaaint);
    let e = lemma_leaves_square(b, e, 0x421862bbaaint, m, 0x12b826c37bint, 0x57b8389a57int);
    let e = lemma_leaves_next(b, e, 0x57b8389a57int, m, 0x136a2e3392int, 0xc338ab20ffint);
    let e = lemma_leaves_square(b, e, 0xc338ab20ffint, m, 0xa34e93f5acint, 0xa4c305018dint);
    let e = lemma_leaves_next(b, e, 0xa4c305018dint, m, 0x2477611346int, 0xbd748a06e5int);
    let e = lemma_leaves_square(b, e, 0xbd748a06e5int, m, 0x99cd6bc06dint, 0xd120efd58eint);
    let e = lemma_leaves_square(b, e, 0xd120efd58eint, m, 0xbb673a92efint, 0xc93d9fecbint);
    let e = lemma_leaves_next(b, e, 0xc93d9fecbint, m, 0x2c8a45139int, 0x2e21555bfaint);
    let e = lemma_leaves_square(b, e, 0x2e21555bfaint, m, 0x91e5276ccint, 0xb5d328e9d0int);
    let e = lemma_leaves_square(b, e, 0xb5d328e9d0int, m, 0x8da9ba25ffint, 0x2a0e8dfe97int);
    let e = lemma_leaves_next(b, e, 0x2a0e8dfe97int, m, 0x94eef6968int, 0x18f86cec85int);
    let e = lemma_leaves_square(b, e, 0x18f86cec85int, m, 0x2abfa0eebint, 0x211df83b7cint);
    let e = lemma_leaves_next(b, e, 0x211df83b7cint, m, 0x754688525int, 0x1int);
}

/// The number 1002328039319 is prime.
pub proof fn lemma_prime_1002328039319()
    ensures
        prime(0xe95f681f97int),
{
    lemma_prime_3969899();
    power_1002328039319_to_3969899_1();
    lemma_of_prime_order(
        0x33a6dcaeabint,
        0x3c936bint,
        0xa75f7d650bint,
        0xe95f681f97int,
        0x250b5480bbint,
    );
    lemma_prime_by_one(
        0xe95f681f97int,
        0x33a6dcaeabint,
        0x3c936bint,
        0xa75f7d650bint,
    );
}

/// The number 3 is prime.
pub proof fn lemma_prime_3()
    ensures
        prime(3),
{
    lemma_prime_by_trial(3, 1, 2);
}

/// Trial division of 155317 up to 41.
proof fn trial_155317_41()
    ensures
        undivided(155317, 41),
{
    lemma_undivided_next(155317, 2, 77658, 1);
    lemma_undivided_next(155317, 3, 51772, 1);
    lemma_undivided_next(155317, 4, 38829, 1);
    lemma_undivided_next(155317, 5, 31063, 2);
    lemma_undivided_next(155317, 6, 25886, 1);
    lemma_undivided_next(155317, 7, 22188, 1);
    lemma_undivided_next(155317, 8, 19414, 5);
    lemma_undivided_next(155317, 9, 17257, 4);
    lemma_undivided_next(155317, 10, 15531, 7);
    lemma_undivided_next(155317, 11, 14119, 8);
    lemma_undivided_next(155317, 12, 12943, 1);
    lemma_undivided_next(155317, 13, 11947, 6);
    lemma_undivided_next(155317, 14, 11094, 1);
    lemma_undivided_next(155317, 15, 10354, 7);
    lemma_undivided_next(155317, 16, 9707, 5);
    lemma_undivided_next(155317, 17, 9136, 5);
    lemma_undivided_next(155317, 18, 8628, 13);
    lemma_undivided_next(155317, 19, 8174, 11);
    lemma_undivided_next(155317, 20, 7765, 17);
    lemma_undivided_next(155317, 21, 7396, 1);
    lemma_undivided_next(155317, 22, 7059, 19);
    lemma_undivided_next(155317, 23, 6752, 21);
    lemma_undivided_next(155317, 24, 6471, 13);
    lemma_undivided_next(155317, 25, 6212, 17);
    lemma_undivided_next(155317, 26, 5973, 19);
    lemma_undivided_next(155317, 27, 5752, 13);
    lemma_undivided_next(155317, 28, 5547, 1);
    lemma_undivided_next(155317, 29, 5355, 22);
    lemma_undivided_next(155317, 30, 5177, 7);
    lemma_undivided_next(155317, 31, 5010, 7);
    lemma_undivided_next(155317, 32, 4853, 21);
    lemma_undivided_next(155317, 33, 4706, 19);
    lemma_undivided_next(155317, 34, 4568, 5);
    lemma_undivided_next(155317, 35, 4437, 22);
    lemma_undivided_next(155317, 36, 4314, 13);
    lemma_undivided_next(155317, 37, 4197, 28);
    lemma_undivided_next(155317, 38, 4087, 11);
    lemma_undivided_next(155317, 39, 3982, 19);
    lemma_undivided_next(155317, 40, 3882, 37);
    lemma_undivided_next(155317, 41, 3788, 9);
}

/// Trial division of 155317 up to 81.
proof fn trial_155317_81()
    ensures
        undivided(155317, 81),
{
    trial_155317_41();
    lemma_undivided_next(155317, 42, 3698, 1);
    lemma_undivided_next(155317, 43, 3612, 1);
    lemma_undivided_next(155317, 44, 3529, 41);
    lemma_undivided_next(155317, 45, 3451, 22);
    lemma_undivided_next(155317, 46, 3376, 21);
    lemma_undivided_next(155317, 47, 3304, 29);
    lemma_undivided_next(155317, 48, 3235, 37);
    lemma_undivided_next(155317, 49, 3169, 36);
    lemma_undivided_next(155317, 50, 3106, 17);
    lemma_undivided_next(155317, 51, 3045, 22);
    lemma_undivided_next(155317, 52, 2986, 45);
    lemma_undivided_next(155317, 53, 2930, 27);
    lemma_undivided_next(155317, 54, 2876, 13);
    lemma_undivided_next(155317, 55, 2823, 52);
    lemma_undivided_next(155317, 56, 2773, 29);
    lemma_undivided_next(155317, 57, 2724, 49);
    lemma_undivided_next(155317, 58, 2677, 51);
    lemma_undivided_next(155317, 59, 2632, 29);
    lemma_undivided_next(155317, 60, 2588, 37);
    lemma_undivided_next(155317, 61, 2546, 11);
    lemma_undivided_next(155317, 62, 2505, 7);
    lemma_undivided_next(155317, 63, 2465, 22);
    lemma_undivided_next(155317, 64, 2426, 53);
    lemma_undivided_next(155317, 65, 2389, 32);
    lemma_undivided_next(155317, 66, 2353, 19);
    lemma_undivided_next(155317, 67, 2318, 11);
    lemma_undivided_next(155317, 68, 2284, 5);
    lemma_undivided_next(155317, 69, 2250, 67);
    lemma_undivided_next(155317, 70, 2218, 57);
    lemma_undivided_next(155317, 71, 2187, 40);
    lemma_undivided_next(155317, 72, 2157, 13);
    lemma_undivided_next(155317, 73, 2127, 46);
    lemma_undivided_next(155317, 74, 2098, 65);
    lemma_undivided_next(155317, 75, 2070, 67);
    lemma_undivided_next(155317, 76, 2043, 49);
    lemma_undivided_next(155317, 77, 2017, 8);
    lemma_undivided_next(155317, 78, 1991, 19);
    lemma_undivided_next(155317, 79, 1966, 3);
    lemma_undivided_next(155317, 80, 1941, 37);
    lemma_undivided_next(155317, 81, 1917, 40);
}

/// Trial division of 155317 up to 121.
proof fn trial_155317_121()
    ensures
        undivided(155317, 121),
{
    trial_155317_81();
    lemma_undivided_next(155317, 82, 1894, 9);
    lemma_undivided_next(155317, 83, 1871, 24);
    lemma_undivided_next(155317, 84, 1849, 1);
    lemma_undivided_next(155317, 85, 1827, 22);
    lemma_undivided_next(155317, 86, 1806, 1);
    lemma_undivided_next(155317, 87, 1785, 22);
    lemma_undivided_next(155317, 88, 1764, 85);
    lemma_undivided_next(155317, 89, 1745, 12);
    lemma_undivided_next(155317, 90, 1725, 67);
    lemma_undivided_next(155317, 91, 1706, 71);
    lemma_undivided_next(155317, 92, 1688, 21);
    lemma_undivided_next(155317, 93, 1670, 7);
    lemma_undivided_next(155317, 94, 1652, 29);
    lemma_undivided_next(155317, 95, 1634, 87);
    lemma_undivided_next(155317, 96, 1617, 85);
    lemma_undivided_next(155317, 97, 1601, 20);
    lemma_undivided_next(155317, 98, 1584, 85);
    lemma_undivided_next(155317, 99, 1568, 85);
    lemma_undivided_next(155317, 100, 1553, 17);
    lemma_undivided_next(155317, 101, 1537, 80);
    lemma_undivided_next(155317, 102, 1522, 73);
    lemma_undivided_next(155317, 103, 1507, 96);
    lemma_undivided_next(155317, 104, 1493, 45);
    lemma_undivided_next(155317, 105, 1479, 22);
    lemma_undivided_next(155317, 106, 1465, 27);
    lemma_undivided_next(155317, 107, 1451, 60);
    lemma_undivided_next(155317, 108, 1438, 13);
    lemma_undivided_next(155317, 109, 1424, 101);
    lemma_undivided_next(155317, 110, 1411, 107);
    lemma_undivided_next(155317, 111, 1399, 28);
    lemma_undivided_next(155317, 112, 1386, 85);
    lemma_undivided_next(155317, 113, 1374, 55);
    lemma_undivided_next(155317, 114, 1362, 49);
    lemma_undivided_next(155317, 115, 1350, 67);
    lemma_undivided_next(155317, 116, 1338, 109);
    lemma_undivided_next(155317, 117, 1327, 58);
    lemma_undivided_next(155317, 118, 1316, 29);
    lemma_undivided_next(155317, 119, 1305, 22);
    lemma_undivided_next(155317, 120, 1294, 37);
    lemma_undivided_next(155317, 121, 1283, 74);
}

/// Trial division of 155317 up to 161.
proof fn trial_155317_161()
    ensures
        undivided(155317, 161),
{
    trial_155317_121();
    lemma_undivided_next(155317, 122, 1273, 11);
    lemma_undivided_next(155317, 123, 1262, 91);
    lemma_undivided_next(155317, 124, 1252, 69);
    lemma_undivided_next(155317, 125, 1242, 67);
    lemma_undivided_next(155317, 126, 1232, 85);
    lemma_undivided_next(155317, 127, 1222, 123);
    lemma_undivided_next(155317, 128, 1213, 53);
    lemma_undivided_next(155317, 129, 1204, 1);
    lemma_undivided_next(155317, 130, 1194, 97);
    lemma_undivided_next(155317, 131, 1185, 82);
    lemma_undivided_next(155317, 132, 1176, 85);
    lemma_undivided_next(155317, 133, 1167, 106);
    lemma_undivided_next(155317, 134, 1159, 11);
    lemma_undivided_next(155317, 135, 1150, 67);
    lemma_undivided_next(155317, 136, 1142, 5);
    lemma_undivided_next(155317, 137, 1133, 96);
    lemma_undivided_next(155317, 138, 1125, 67);
    lemma_undivided_next(155317, 139, 1117, 54);
    lemma_undivided_next(155317, 140, 1109, 57);
    lemma_undivided_next(155317, 141, 1101, 76);
    lemma_undivided_next(155317, 142, 1093, 111);
    lemma_undivided_next(155317, 143, 1086, 19);
    lemma_undivided_next(155317, 144, 1078, 85);
    lemma_undivided_next(155317, 145, 1071, 22);
    lemma_undivided_next(155317, 146, 1063, 119);
    lemma_undivided_next(155317, 147, 1056, 85);
    lemma_undivided_next(155317, 148, 1049, 65);
    lemma_undivided_next(155317, 149, 1042, 59);
    lemma_undivided_next(155317, 150, 1035, 67);
    lemma_undivided_next(155317, 151, 1028, 89);
    lemma_undivided_next(155317, 152, 1021, 125);
    lemma_undivided_next(155317, 153, 1015, 22);
    lemma_undivided_next(155317, 154, 1008, 85);
    lemma_undivided_next(155317, 155, 1002, 7);
    lemma_undivided_next(155317, 156, 995, 97);
    lemma_undivided_next(155317, 157, 989, 44);
    lemma_undivided_next(155317, 158, 983, 3);
    lemma_undivided_next(155317, 159, 976, 133);
    lemma_undivided_next(155317, 160, 970, 117);
    lemma_undivided_next(155317, 161, 964, 113);
}

/// Trial division of 155317 up to 201.
proof fn trial_155317_201()
    ensures
        undivided(155317, 201),
{
    trial_155317_161();
    lemma_undivided_next(155317, 162, 958, 121);
    lemma_undivided_next(155317, 163, 952, 141);
    lemma_undivided_next(155317, 164, 947, 9);
    lemma_undivided_next(155317, 165, 941, 52);
    lemma_undivided_next(155317, 166, 935, 107);
    lemma_undivided_next(155317, 167, 930, 7);
    lemma_undivided_next(155317, 168, 924, 85);
    lemma_undivided_next(155317, 169, 919, 6);
    lemma_undivided_next(155317, 170, 913, 107);
    lemma_undivided_next(155317, 171, 908, 49);
    lemma_undivided_next(155317, 172, 903, 1);
    lemma_undivided_next(155317, 173, 897, 136);
    lemma_undivided_next(155317, 174, 892, 109);
    lemma_undivided_next(155317, 175, 887, 92);
    lemma_undivided_next(155317, 176, 882, 85);
    lemma_undivided_next(155317, 177, 877, 88);
    lemma_undivided_next(155317, 178, 872, 101);
    lemma_undivided_next(155317, 179, 867, 124);
    lemma_undivided_next(155317, 180, 862, 157);
    lemma_undivided_next(155317, 181, 858, 19);
    lemma_undivided_next(155317, 182, 853, 71);
    lemma_undivided_next(155317, 183, 848, 133);
    lemma_undivided_next(155317, 184, 844, 21);
    lemma_undivided_next(155317, 185, 839, 102);
    lemma_undivided_next(155317, 186, 835, 7);
    lemma_undivided_next(155317, 187, 830, 107);
    lemma_undivided_next(155317, 188, 826, 29);
    lemma_undivided_next(155317, 189, 821, 148);
    lemma_undivided_next(155317, 190, 817, 87);
    lemma_undivided_next(155317, 191, 813, 34);
    lemma_undivided_next(155317, 192, 808, 181);
    lemma_undivided_next(155317, 193, 804, 145);
    lemma_undivided_next(155317, 194, 800, 117);
    lemma_undivided_next(155317, 195, 796, 97);
    lemma_undivided_next(155317, 196, 792, 85);
    lemma_undivided_next(155317, 197, 788, 81);
    lemma_undivided_next(155317, 198, 784, 85);
    lemma_undivided_next(155317, 199, 780, 97);
    lemma_undivided_next(155317, 200, 776, 117);
    lemma_undivided_next(155317, 201, 772, 145);
}

/// Trial division of 155317 up to 241.
proof fn trial_155317_241()
    ensures
        undivided(155317, 241),
{
    trial_155317_201();
    lemma_undivided_next(155317, 202, 768, 181);
    lemma_undivided_next(155317, 203, 765, 22);
    lemma_undivided_next(155317, 204, 761, 73);
    lemma_undivided_next(155317, 205, 757, 132);
    lemma_undivided_next(155317, 206, 753, 199);
    lemma_undivided_next(155317, 207, 750, 67);
    lemma_undivided_next(155317, 208, 746, 149);
    lemma_undivided_next(155317, 209, 743, 30);
    lemma_undivided_next(155317, 210, 739, 127);
    lemma_undivided_next(155317, 211, 736, 21);
    lemma_undivided_next(155317, 212, 732, 133);
    lemma_undivided_next(155317, 213, 729, 40);
    lemma_undivided_next(155317, 214, 725, 167);
    lemma_undivided_next(155317, 215, 722, 87);
    lemma_undivided_next(155317, 216, 719, 13);
    lemma_undivided_next(155317, 217, 715, 162);
    lemma_undivided_next(155317, 218, 712, 101);
    lemma_undivided_next(155317, 219, 709, 46);
    lemma_undivided_next(155317, 220, 705, 217);
    lemma_undivided_next(155317, 221, 702, 175);
    lemma_undivided_next(155317, 222, 699, 139);
    lemma_undivided_next(155317, 223, 696, 109);
    lemma_undivided_next(155317, 224, 693, 85);
    lemma_undivided_next(155317, 225, 690, 67);
    lemma_undivided_next(155317, 226, 687, 55);
    lemma_undivided_next(155317, 227, 684, 49);
    lemma_undivided_next(155317, 228, 681, 49);
    lemma_undivided_next(155317, 229, 678, 55);
    lemma_undivided_next(155317, 230, 675, 67);
    lemma_undivided_next(155317, 231, 672, 85);
    lemma_undivided_next(155317, 232, 669, 109);
    lemma_undivided_next(155317, 233, 666, 139);
    lemma_undivided_next(155317, 234, 663, 175);
    lemma_undivided_next(155317, 235, 660, 217);
    lemma_undivided_next(155317, 236, 658, 29);
    lemma_undivided_next(155317, 237, 655, 82);
    lemma_undivided_next(155317, 238, 652, 141);
    lemma_undivided_next(155317, 239, 649, 206);
    lemma_undivided_next(155317, 240, 647, 37);
    lemma_undivided_next(155317, 241, 644, 113);
}

/// Trial division of 155317 up to 281.
proof fn trial_155317_281()
    ensures
        undivided(155317, 281),
{
    trial_155317_241();
    lemma_undivided_next(155317, 242, 641, 195);
    lemma_undivided_next(155317, 243, 639, 40);
    lemma_undivided_next(155317, 244, 636, 133);
    lemma_undivided_next(155317, 245, 633, 232);
    lemma_undivided_next(155317, 246, 631, 91);
    lemma_undivided_next(155317, 247, 628, 201);
    lemma_undivided_next(155317, 248, 626, 69);
    lemma_undivided_next(155317, 249, 623, 190);
    lemma_undivided_next(155317, 250, 621, 67);
    lemma_undivided_next(155317, 251, 618, 199);
    lemma_undivided_next(155317, 252, 616, 85);
    lemma_undivided_next(155317, 253, 613, 228);
    lemma_undivided_next(155317, 254, 611, 123);
    lemma_undivided_next(155317, 255, 609, 22);
    lemma_undivided_next(155317, 256, 606, 181);
    lemma_undivided_next(155317, 257, 604, 89);
    lemma_undivided_next(155317, 258, 602, 1);
    lemma_undivided_next(155317, 259, 599, 176);
    lemma_undivided_next(155317, 260, 597, 97);
    lemma_undivided_next(155317, 261, 595, 22);
    lemma_undivided_next(155317, 262, 592, 213);
    lemma_undivided_next(155317, 263, 590, 147);
    lemma_undivided_next(155317, 264, 588, 85);
    lemma_undivided_next(155317, 265, 586, 27);
    lemma_undivided_next(155317, 266, 583, 239);
    lemma_undivided_next(155317, 267, 581, 190);
    lemma_undivided_next(155317, 268, 579, 145);
    lemma_undivided_next(155317, 269, 577, 104);
    lemma_undivided_next(155317, 270, 575, 67);
    lemma_undivided_next(155317, 271, 573, 34);
    lemma_undivided_next(155317, 272, 571, 5);
    lemma_undivided_next(155317, 273, 568, 253);
    lemma_undivided_next(155317, 274, 566, 233);
    lemma_undivided_next(155317, 275, 564, 217);
    lemma_undivided_next(155317, 276, 562, 205);
    lemma_undivided_next(155317, 277, 560, 197);
    lemma_undivided_next(155317, 278, 558, 193);
    lemma_undivided_next(155317, 279, 556, 193);
    lemma_undivided_next(155317, 280, 554, 197);
    lemma_undivided_next(155317, 281, 552, 205);
}

/// Trial division of 155317 up to 321.
proof fn trial_155317_321()
    ensures
        undivided(155317, 321),
{
    trial_155317_281();
    lemma_undivided_next(155317, 282, 550, 217);
    lemma_undivided_next(155317, 283, 548, 233);
    lemma_undivided_next(155317, 284, 546, 253);
    lemma_undivided_next(155317, 285, 544, 277);
    lemma_undivided_next(155317, 286, 543, 19);
    lemma_undivided_next(155317, 287, 541, 50);
    lemma_undivided_next(155317, 288, 539, 85);
    lemma_undivided_next(155317, 289, 537, 124);
    lemma_undivided_next(155317, 290, 535, 167);
    lemma_undivided_next(155317, 291, 533, 214);
    lemma_undivided_next(155317, 292, 531, 265);
    lemma_undivided_next(155317, 293, 530, 27);
    lemma_undivided_next(155317, 294, 528, 85);
    lemma_undivided_next(155317, 295, 526, 147);
    lemma_undivided_next(155317, 296, 524, 213);
    lemma_undivided_next(155317, 297, 522, 283);
    lemma_undivided_next(155317, 298, 521, 59);
    lemma_undivided_next(155317, 299, 519, 136);
    lemma_undivided_next(155317, 300, 517, 217);
    lemma_undivided_next(155317, 301, 516, 1);
    lemma_undivided_next(155317, 302, 514, 89);
    lemma_undivided_next(155317, 303, 512, 181);
    lemma_undivided_next(155317, 304, 510, 277);
    lemma_undivided_next(155317, 305, 509, 72);
    lemma_undivided_next(155317, 306, 507, 175);
    lemma_undivided_next(155317, 307, 505, 282);
    lemma_undivided_next(155317, 308, 504, 85);
    lemma_undivided_next(155317, 309, 502, 199);
    lemma_undivided_next(155317, 310, 501, 7);
    lemma_undivided_next(155317, 311, 499, 128);
    lemma_undivided_next(155317, 312, 497, 253);
    lemma_undivided_next(155317, 313, 496, 69);
    lemma_undivided_next(155317, 314, 494, 201);
    lemma_undivided_next(155317, 315, 493, 22);
    lemma_undivided_next(155317, 316, 491, 161);
    lemma_undivided_next(155317, 317, 489, 304);
    lemma_undivided_next(155317, 318, 488, 133);
    lemma_undivided_next(155317, 319, 486, 283);
    lemma_undivided_next(155317, 320, 485, 117);
    lemma_undivided_next(155317, 321, 483, 274);
}

/// Trial division of 155317 up to 361.
proof fn trial_155317_361()
    ensures
        undivided(155317, 361),
{
    trial_155317_321();
    lemma_undivided_next(155317, 322, 482, 113);
    lemma_undivided_next(155317, 323, 480, 277);
    lemma_undivided_next(155317, 324, 479, 121);
    lemma_undivided_next(155317, 325, 477, 292);
    lemma_undivided_next(155317, 326, 476, 141);
    lemma_undivided_next(155317, 327, 474, 319);
    lemma_undivided_next(155317, 328, 473, 173);
    lemma_undivided_next(155317, 329, 472, 29);
    lemma_undivided_next(155317, 330, 470, 217);
    lemma_undivided_next(155317, 331, 469, 78);
    lemma_undivided_next(155317, 332, 467, 273);
    lemma_undivided_next(155317, 333, 466, 139);
    lemma_undivided_next(155317, 334, 465, 7);
    lemma_undivided_next(155317, 335, 463, 212);
    lemma_undivided_next(155317, 336, 462, 85);
    lemma_undivided_next(155317, 337, 460, 297);
    lemma_undivided_next(155317, 338, 459, 175);
    lemma_undivided_next(155317, 339, 458, 55);
    lemma_undivided_next(155317, 340, 456, 277);
    lemma_undivided_next(155317, 341, 455, 162);
    lemma_undivided_next(155317, 342, 454, 49);
    lemma_undivided_next(155317, 343, 452, 281);
    lemma_undivided_next(155317, 344, 451, 173);
    lemma_undivided_next(155317, 345, 450, 67);
    lemma_undivided_next(155317, 346, 448, 309);
    lemma_undivided_next(155317, 347, 447, 208);
    lemma_undivided_next(155317, 348, 446, 109);
    lemma_undivided_next(155317, 349, 445, 12);
    lemma_undivided_next(155317, 350, 443, 267);
    lemma_undivided_next(155317, 351, 442, 175);
    lemma_undivided_next(155317, 352, 441, 85);
    lemma_undivided_next(155317, 353, 439, 350);
    lemma_undivided_next(155317, 354, 438, 265);
    lemma_undivided_next(155317, 355, 437, 182);
    lemma_undivided_next(155317, 356, 436, 101);
    lemma_undivided_next(155317, 357, 435, 22);
    lemma_undivided_next(155317, 358, 433, 303);
    lemma_undivided_next(155317, 359, 432, 229);
    lemma_undivided_next(155317, 360, 431, 157);
    lemma_undivided_next(155317, 361, 430, 87);
}

/// The number 155317 is prime.
pub proof fn lemma_prime_155317()
    ensures
        prime(155317),
{
    trial_155317_361();
    lemma_undivided_next(155317, 362, 429, 19);
    lemma_undivided_next(155317, 363, 427, 316);
    lemma_undivided_next(155317, 364, 426, 253);
    lemma_undivided_next(155317, 365, 425, 192);
    lemma_undivided_next(155317, 366, 424, 133);
    lemma_undivided_next(155317, 367, 423, 76);
    lemma_undivided_next(155317, 368, 422, 21);
    lemma_undivided_next(155317, 369, 420, 337);
    lemma_undivided_next(155317, 370, 419, 287);
    lemma_undivided_next(155317, 371, 418, 239);
    lemma_undivided_next(155317, 372, 417, 193);
    lemma_undivided_next(155317, 373, 416, 149);
    lemma_undivided_next(155317, 374, 415, 107);
    lemma_undivided_next(155317, 375, 414, 67);
    lemma_undivided_next(155317, 376, 413, 29);
    lemma_undivided_next(155317, 377, 411, 370);
    lemma_undivided_next(155317, 378, 410, 337);
    lemma_undivided_next(155317, 379, 409, 306);
    lemma_undivided_next(155317, 380, 408, 277);
    lemma_undivided_next(155317, 381, 407, 250);
    lemma_undivided_next(155317, 382, 406, 225);
    lemma_undivided_next(155317, 383, 405, 202);
    lemma_undivided_next(155317, 384, 404, 181);
    lemma_undivided_next(155317, 385, 403, 162);
    lemma_undivided_next(155317, 386, 402, 145);
    lemma_undivided_next(155317, 387, 401, 130);
    lemma_undivided_next(155317, 388, 400, 117);
    lemma_undivided_next(155317, 389, 399, 106);
    lemma_undivided_next(155317, 390, 398, 97);
    lemma_undivided_next(155317, 391, 397, 90);
    lemma_undivided_next(155317, 392, 396, 85);
    lemma_undivided_next(155317, 393, 395, 82);
    lemma_undivided_next(155317, 394, 394, 81);
    lemma_prime_by_trial(155317, 394, 395);
}

/// A power of an element, step by step.
proof fn power_191039911_to_155317_0()
    ensures
        leaves(0x48b6081int, 0x12f5nat, 0x92f2073int, 0xb6309a7int),
{
    let (b, m) = (0x48b6081int, 0xb6309a7int);
    lemma_leaves_first(b, m);
    let e = 1nat;
    let e = lemma_leaves_square(b, e, 0x48b6081int, m, 0x1d04c45int, 0x137d2feint);
    let e = lemma_leaves_square(b, e, 0x137d2feint, m, 0x215b2aint, 0x1d4c19eint);
    let e = lemma_leaves_square(b, e, 0x1d4c19eint, m, 0x4b6102int, 0xac44336int);
    let e = lemma_leaves_next(b, e, 0xac44336int, m, 0x44c02b6int, 0x45bf37cint);
    let e = lemma_leaves_square(b, e, 0x45bf37cint, m, 0x1ab36f4int, 0x9c136e4int);
    let e = lemma_leaves_square(b, e, 0x9c136e4int, m, 0x85b4780int, 0x7fdd690int);
    let e = lemma_leaves_next(b, e, 0x7fdd690int, m, 0x3307bd8int, 0x20bbca8int);
    let e = lemma_leaves_square(b, e, 0x20bbca8int, m, 0x5e1930int, 0x7a20ff0int);
    let e = lemma_leaves_next(b, e, 0x7a20ff0int, m, 0x30bdb41int, 0x95fb789int);
    let e = lemma_leaves_square(b, e, 0x95fb789int, m, 0x7b77ea0int, 0x93becf1int);
    let e = lemma_leaves_next(b, e, 0x93becf1int, m, 0x3af6e4dint, 0x1cf1c36int);
    let e = lemma_leaves_square(b, e, 0x1cf1c36int, m, 0x4992f3int, 0x34d73dfint);
    let e = lemma_leaves_next(b, e, 0x34d73dfint, m, 0x1516a79int, 0x2ea4d70int);
    let e = lemma_leaves_square(b, e, 0x2ea4d70int, m, 0xbf1124int, 0x7021e84int);
    let e = lemma_leaves_square(b, e, 0x7021e84int, m, 0x4503a25int, 0x2f8edint);
    let e = lemma_leaves_next(b, e, 0x2f8edint, m, 0x12faeint, 0x5ca16ebint);
    let e = lemma_leaves_square(b, e, 0x5ca16ebint, m, 0x2f18986int, 0xb0cf4fint);
    let e = lemma_leaves_square(b, e, 0xb0cf4fint, m, 0xab96aint, 0xaff2c3bint);
    let e = lemma_leaves_next(b, e, 0xaff2c3bint, m, 0x4638578int, 0x92f2073int);
}

/// A power of an element, step by step.
proof fn power_191039911_to_155317_1()
    ensures
        leaves(0x48b6081int, 0x25eb5nat, 0x1int, 0xb6309a7int),
{
    let (b, m) = (0x48b6081int, 0xb6309a7int);
    power_191039911_to_155317_0();
    let e = 0x12f5nat;
    let e = lemma_leaves_square(b, e, 0x92f2073int, m, 0x7684dc4int, 0x5c454cdint);
    let e = lemma_leaves_next(b, e, 0x5c454cdint, m, 0x24d3248int, 0x6124655int);
    let e = lemma_leaves_square(b, e, 0x6124655int, m, 0x33cba11int, 0x48b9e22int);
    let e = lemma_leaves_square(b, e, 0x48b9e22int, m, 0x1d07d77int, 0x529f4e3int);
    let e = lemma_leaves_next(b, e, 0x529f4e3int, m, 0x20f9615int, 0x3a9e1b0int);
    let e = lemma_leaves_square(b, e, 0x3a9e1b0int, m, 0x12dc0d0int, 0x46c150int);
    let e = lemma_leaves_square(b, e, 0x46c150int, m, 0x1b7a7int, 0x6910c0fint);
    let e = lemma_leaves_next(b, e, 0x6910c0fint, m, 0x29ee5c2int, 0x1int);
}

/// The number 191039911 is prime.
pub proof fn lemma_prime_191039911()
    ensures
        prime(0xb6309a7int),
{
    lemma_prime_155317();
    power_191039911_to_155317_1();
    lemma_of_prime_order(
        0x48b6081int,
        0x25eb5int,
        0x424d3b6int,
        0xb6309a7int,
        0x1a75ee9int,
    );
    lemma_prime_by_one(
        0xb6309a7int,
        0x48b6081int,
        0x25eb5int,
        0x424d3b6int,
    );
}

/// A power of an element, step by step.
proof fn power_58_bits_to_3_0()
    ensures
        leaves(0x2a359eacef29846int, 0x3nat, 0x1int, 0x2e3802c35c7ed3bint),
{
    let (b, m) = (0x2a359eacef29846int, 0x2e3802c35c7ed3bint);
    lemma_leaves_first(b, m);
    let e = 1nat;
    let e = lemma_leaves_square(b, e, 0x2a359eacef29846int, m, 0x268c43e136e7790int, 0x40264166d554f4int);
    let e = lemma_leaves_next(b, e, 0x40264166d554f4int, m, 0x3a95acbb8420b5int, 0x1int);
}

/// A power of an element, step by step.
proof fn power_58_bits_to_191039911_0()
    ensures
        leaves(0x13eb608199212c2int, 0x16c6nat, 0xdd88c646b00033int, 0x2e3802c35c7ed3bint),
{
    let (b, m) = (0x13eb608199212c2int, 0x2e3802c35c7ed3bint);
    lemma_leaves_first(b, m);
    let e = 1nat;
    let e = lemma_leaves_square(b, e, 0x13eb608199212c2int, m, 0x895bc9f0908a82int, 0x28a0882740f950eint);
    let e = lemma_leaves_square(b, e, 0x28a0882740f950eint, m, 0x23b63d03fe6c967int, 0xf3044b39b78707int);
    let e = lemma_leaves_next(b, e, 0xf3044b39b78707int, m, 0x68bc57f6b9bd06int, 0xb600e75719b2ecint);
    let e = lemma_leaves_square(b, e, 0xb600e75719b2ecint, m, 0x2ccb4bb606689eint, 0xfea055ebfea726int);
    let e = lemma_leaves_next(b, e, 0xfea055ebfea726int, m, 0x6dbd3d0a3f2186int, 0xc952d92ca78eeaint);
    let e = lemma_leaves_square(b, e, 0xc952d92ca78eeaint, m, 0x36cf12a6cfbc90int, 0x2d123800db2a8b4int);
    let e = lemma_leaves_square(b, e, 0x2d123800db2a8b4int, m, 0x2bf3b8bf40a3c90int, 0x2f0863b51f7960int);
    let e = lemma_leaves_next(b, e, 0x2f0863b51f7960int, m, 0x14452f2fd63db2int, 0x7f0207e446b8baint);
    let e = lemma_leaves_square(b, e, 0x7f0207e446b8baint, m, 0x15d03a2f82f8b0int, 0x1268cfe6c9a694int);
    let e = lemma_leaves_next(b, e, 0x1268cfe6c9a694int, m, 0x7ef22701ab792int, 0x1f7901608562b82int);
    let e = lemma_leaves_square(b, e, 0x1f7901608562b82int, m, 0x156e6a8bfbd4e8bint, 0x2629a5c1b5824fbint);
    let e = lemma_leaves_square(b, e, 0x2629a5c1b5824fbint, m, 0x1f82c301a38c124int, 0x1c43ae73708b6cdint);
    let e = lemma_leaves_square(b, e, 0x1c43ae73708b6cdint, m, 0x1148de35c68954eint, 0x28a333db162812fint);
    let e = lemma_leaves_square(b, e, 0x28a333db162812fint, m, 0x23baef242e65cbaint, 0x396aeee1a6d5c3int);
    let e = lemma_leaves_next(b, e, 0x396aeee1a6d5c3int, m, 0x18bef79f7b0966int, 0x26bd02d9a531b44int);
    let e = lemma_leaves_square(b, e, 0x26bd02d9a531b44int, m, 0x2077f3ccaaa6ca0int, 0x12f149674c84130int);
    let e = lemma_leaves_next(b, e, 0x12f149674c84130int, m, 0x829f3da44f3992int, 0x3db66240aa57baint);
    let e = lemma_leaves_square(b, e, 0x3db66240aa57baint, m, 0x526661412cdc3int, 0xdd88c646b00033int);
}

/// A power of an element, step by step.
proof fn power_58_bits_to_191039911_1()
    ensures
        leaves(0x13eb608199212c2int, 0x16c6134nat, 0x20676061b699320int, 0x2e3802c35c7ed3bint),
{
    let (b, m) = (0x13eb608199212c2int, 0x2e3802c35c7ed3bint);
    power_58_bits_to_191039911_0();
    let e = 0x16c6nat;
    let e = lemma_leaves_square(b, e, 0xdd88c646b00033int, m, 0x425d9a8d56fcc9int, 0x1bbd07f1ceb2d6int);
    let e = lemma_leaves_square(b, e, 0x1bbd07f1ceb2d6int, m, 0x10a5b6b0d6793int, 0x26a470132175503int);
    let e = lemma_leaves_square(b, e, 0x26a470132175503int, m, 0x204ecfa027c861bint, 0x1d81e3bddee16d0int);
    let e = lemma_leaves_square(b, e, 0x1d81e3bddee16d0int, m, 0x12d69dc707c8ba5int, 0x1d500aa9c8978f9int);
    let e = lemma_leaves_next(b, e, 0x1d500aa9c8978f9int, m, 0xca21a4610e5cd1int, 0x2da334183fd4d87int);
    let e = lemma_leaves_square(b, e, 0x2da334183fd4d87int, m, 0x2d104487c868149int, 0x2bceaaca8e11c5eint);
    let e = lemma_leaves_square(b, e, 0x2bceaaca8e11c5eint, m, 0x298588ab081e84aint, 0x24c5d546adda776int);
    let e = lemma_leaves_square(b, e, 0x24c5d546adda776int, m, 0x1d41df64c758ef0int, 0x167ac42064b0914int);
    let e = lemma_leaves_next(b, e, 0x167ac42064b0914int, m, 0x9b03285c6a53f4int, 0x1d239f3aa020becint);
    let e = lemma_leaves_square(b, e, 0x1d239f3aa020becint, m, 0x125f004a7ab8b41int, 0x41883b7742dc95int);
    let e = lemma_leaves_next(b, e, 0x41883b7742dc95int, m, 0x1c3e3ea12dc2d8int, 0xca3517bd51c322int);
    let e = lemma_leaves_square(b, e, 0xca3517bd51c322int, m, 0x374a87ad537efbint, 0x1a6d74859572dabint);
    let e = lemma_leaves_square(b, e, 0x1a6d74859572dabint, m, 0xf1c6fc4ce7c8adint, 0x2073d3dab1275aint);
    let e = lemma_leaves_next(b, e, 0x2073d3dab1275aint, m, 0xdfc84f9861e80int, 0x265a16388b29eb4int);
    let e = lemma_leaves_square(b, e, 0x265a16388b29eb4int, m, 0x1fd2f3cec105312int, 0x2df9e78309df6aint);
    let e = lemma_leaves_square(b, e, 0x2df9e78309df6aint, m, 0x2dbc1fb75120cint, 0x20676061b699320int);
}

/// A power of an element, step by step.
proof fn power_58_bits_to_191039911_2()
    ensures
        leaves(0x13eb608199212c2int, 0xb6309a7nat, 0x1int, 0x2e3802c35c7ed3bint),
{
    let (b, m) = (0x13eb608199212c2int, 0x2e3802c35c7ed3bint);
    power_58_bits_to_191039911_1();
    let e = 0x16c6134nat;
    let e = lemma_leaves_square(b, e, 0x20676061b699320int, m, 0x16b7db23b676193int, 0x20032c1660301fint);
    let e = lemma_leaves_next(b, e, 0x20032c1660301fint, m, 0xdcbf79214b2d7int, 0x236eb24d47d62f1int);
    let e = lemma_leaves_square(b, e, 0x236eb24d47d62f1int, m, 0x1b29ceeca80bf7fint, 0x2797b00e9e9b19cint);
    let e = lemma_leaves_next(b, e, 0x2797b00e9e9b19cint, m, 0x11104b11027f94dint, 0x60c5f3c1afd279int);
    let e = lemma_leaves_square(b, e, 0x60c5f3c1afd279int, m, 0xca9fe2a0b2ddeint, 0x2bb03fa38dca507int);
    let e = lemma_leaves_next(b, e, 0x2bb03fa38dca507int, m, 0x12d434182e5e717int, 0x1int);
}

/// A prime of 58 bits.
pub proof fn lemma_prime_58_bits()
    ensures
        prime(0x2e3802c35c7ed3bint),
{
    lemma_prime_3();
    lemma_prime_191039911();
    power_58_bits_to_3_0();
    lemma_of_prime_order(
        0x2a359eacef29846int,
        0x3int,
        0x10be2248989c0baint,
        0x2e3802c35c7ed3bint,
        0xf4a532837ce853int,
    );
    power_58_bits_to_191039911_2();
    lemma_of_prime_order(
        0x13eb608199212c2int,
        0xb6309a7int,
        0x1db8cf470f45437int,
        0x2e3802c35c7ed3bint,
        0xccf4175e547302int,
    );
    lemma_prime_by_two(
        0x2e3802c35c7ed3bint,
        0x2a359eacef29846int,
        0x3int,
        0x10be2248989c0baint,
        0x13eb608199212c2int,
        0xb6309a7int,
        0x1db8cf470f45437int,
    );
}

} // verus!
