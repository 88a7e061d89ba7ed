//! The order of the group is prime. Powers are built by squaring and
//! multiplying; every step gives its quotient and its remainder.
use crate::primes::{
    leaves, lemma_leaves_first, lemma_leaves_next, lemma_leaves_square, lemma_of_prime_order,
    lemma_prime_by_one, lemma_prime_by_two, prime,
};
use vstd::prelude::*;

verus! {

/// A power of an element, step by step.
proof fn power_92_bits_to_58_bits_0()
    ensures
        leaves(0x7abdbdcd50b580e230e79int, 0x171cnat, 0x5ce6c85e7fb503e6cfe46c6int, 0x87b23e9d09d3e637b2aa341int),
{
    let (b, m) = (0x7abdbdcd50b580e230e79int, 0x87b23e9d09d3e637b2aa341int);
    lemma_leaves_first(b, m);
    let e = 1nat;
    let e = lemma_leaves_square(b, e, 0x7abdbdcd50b580e230e79int, m, 0x6f05de70755868e7c12int, 0x4176f414a47023b4dc67e9fint);
    let e = lemma_leaves_square(b, e, 0x4176f414a47023b4dc67e9fint, m, 0x1f951c195f16c8d8aab64ffint, 0x770190754e741e054ebe502int);
    let e = lemma_leaves_next(b, e, 0x770190754e741e054ebe502int, m, 0x6ba4faac50bf53cdceb6eint, 0x743836039c7b937dd408904int);
    let e = lemma_leaves_square(b, e, 0x743836039c7b937dd408904int, m, 0x6389d49901121f4f4f74c4bint, 0x5a367cfc83be0267da92805int);
    let e = lemma_leaves_next(b, e, 0x5a367cfc83be0267da92805int, m, 0x5199a0fe15e71b54528c5int, 0x85b565a272da0b0fcfc6758int);
    let e = lemma_leaves_square(b, e, 0x85b565a272da0b0fcfc6758int, m, 0x83c000c8a2e27538135a8c9int, 0x6de217ca5bde736a1e61837int);
    let e = lemma_leaves_next(b, e, 0x6de217ca5bde736a1e61837int, m, 0x63647a697d2a76db2d608int, 0x3e53e11cedef4bcbe9a03f7int);
    let e = lemma_leaves_square(b, e, 0x3e53e11cedef4bcbe9a03f7int, m, 0x1ca0d008b97006e6160506fint, 0x74e97154ac203ecd55a9f22int);
    let e = lemma_leaves_square(b, e, 0x74e97154ac203ecd55a9f22int, m, 0x64ba52484075007a23ca464int, 0x8762a058f8c65bb0859d720int);
    let e = lemma_leaves_square(b, e, 0x8762a058f8c65bb0859d720int, m, 0x871330cbf72a60cb27fb467int, 0x1d82692e657ac6290d660d9int);
    let e = lemma_leaves_square(b, e, 0x1d82692e657ac6290d660d9int, m, 0x66ad52a9fdb675f556f5bcint, 0x5121a2c5271976ae10c5f35int);
    let e = lemma_leaves_next(b, e, 0x5121a2c5271976ae10c5f35int, m, 0x4962bba628d09edf27481int, 0x64934306575e74613652e4cint);
    let e = lemma_leaves_square(b, e, 0x64934306575e74613652e4cint, m, 0x4a8b5542d3bde96e1f73eacint, 0x21edf956e4b4e0c1f70f8e4int);
    let e = lemma_leaves_next(b, e, 0x21edf956e4b4e0c1f70f8e4int, m, 0x1eb0b69b1ff46dae76d4aint, 0x5da4c215196286a1db13dfaint);
    let e = lemma_leaves_square(b, e, 0x5da4c215196286a1db13dfaint, m, 0x409f873f107dbf29c9b579dint, 0x11b32ab7ce4872cebb8e247int);
    let e = lemma_leaves_next(b, e, 0x11b32ab7ce4872cebb8e247int, m, 0x1002921d83ca04b52a02bint, 0x58761572eaea761ac73c9a4int);
    let e = lemma_leaves_square(b, e, 0x58761572eaea761ac73c9a4int, m, 0x39ab207834678892b3aabb9int, 0x144f739d0482193c3948c17int);
    let e = lemma_leaves_square(b, e, 0x144f739d0482193c3948c17int, m, 0x30a3a88a1ad16e485f7f8bint, 0x5ce6c85e7fb503e6cfe46c6int);
}

/// A power of an element, step by step.
proof fn power_92_bits_to_58_bits_1()
    ensures
        leaves(0x7abdbdcd50b580e230e79int, 0x171c016nat, 0x34ea955fc8308387537551dint, 0x87b23e9d09d3e637b2aa341int),
{
    let (b, m) = (0x7abdbdcd50b580e230e79int, 0x87b23e9d09d3e637b2aa341int);
    power_92_bits_to_58_bits_0();
    let e = 0x171cnat;
    let e = lemma_leaves_square(b, e, 0x5ce6c85e7fb503e6cfe46c6int, m, 0x3f9a5d411985dd1cfc99fabint, 0x4fb04d147e006b0168f75b9int);
    let e = lemma_leaves_square(b, e, 0x4fb04d147e006b0168f75b9int, m, 0x2ecc3bccc002331362fdda5int, 0xdf66128a94add9a67749ccint);
    let e = lemma_leaves_square(b, e, 0xdf66128a94add9a67749ccint, m, 0x16fc8d70a520624aec9808int, 0x62efdcd5333d83ccbe4888int);
    let e = lemma_leaves_square(b, e, 0x62efdcd5333d83ccbe4888int, m, 0x4822b2587793f79327bd6int, 0x19d8d1bfb3ecd6570a614eaint);
    let e = lemma_leaves_square(b, e, 0x19d8d1bfb3ecd6570a614eaint, m, 0x4ec593e1b9bb13d5b41d47int, 0x16a88805bf6c3820527c1ddint);
    let e = lemma_leaves_square(b, e, 0x16a88805bf6c3820527c1ddint, m, 0x3c890053ea9e90ad7bbba4int, 0x6c0345be60f9320dc58e825int);
    let e = lemma_leaves_square(b, e, 0x6c0345be60f9320dc58e825int, m, 0x55fa1e3e918fd02963cfb75int, 0x1ebea99a08a0abd9229bda4int);
    let e = lemma_leaves_square(b, e, 0x1ebea99a08a0abd9229bda4int, m, 0x6f7429b29e9918104ce8f4int, 0x3ca2836cd6276e0cb210f1cint);
    let e = lemma_leaves_next(b, e, 0x3ca2836cd6276e0cb210f1cint, m, 0x36d88f51180b62961185fint, 0xb614bc3a50eb5a7185ff1dint);
    let e = lemma_leaves_square(b, e, 0xb614bc3a50eb5a7185ff1dint, m, 0xf452412b299e5b1d572a9int, 0x498923a70a1dbba9a6f1160int);
    let e = lemma_leaves_square(b, e, 0x498923a70a1dbba9a6f1160int, m, 0x27d99b04c2b7415e05decaeint, 0x33ca56a0e584dc35e5601d2int);
    let e = lemma_leaves_next(b, e, 0x33ca56a0e584dc35e5601d2int, m, 0x2ed88c65ed0b24a134e5fint, 0x571507dd1b96f8d6c12f523int);
    let e = lemma_leaves_square(b, e, 0x571507dd1b96f8d6c12f523int, m, 0x37e2665f597aa22613dd38dint, 0x3ffb8d1e0dbadd5692084fcint);
    let e = lemma_leaves_next(b, e, 0x3ffb8d1e0dbadd5692084fcint, m, 0x39dfc67548eab3546632cint, 0x187d7a1839cb95bacdc70f0int);
    let e = lemma_leaves_square(b, e, 0x187d7a1839cb95bacdc70f0int, m, 0x46b80208e25e09ff2aba23int, 0x34ea955fc8308387537551dint);
}

/// A power of an element, step by step.
proof fn power_92_bits_to_58_bits_2()
    ensures
        leaves(0x7abdbdcd50b580e230e79int, 0x171c0161aenat, 0x3c7733da5f8c7d69aa29511int, 0x87b23e9d09d3e637b2aa341int),
{
    let (b, m) = (0x7abdbdcd50b580e230e79int, 0x87b23e9d09d3e637b2aa341int);
    power_92_bits_to_58_bits_1();
    let e = 0x171c016nat;
    let e = lemma_leaves_square(b, e, 0x34ea955fc8308387537551dint, m, 0x14a2a5eebf4062ae1ba7b93int, 0x409d714924dc8043c9c4bf6int);
    let e = lemma_leaves_square(b, e, 0x409d714924dc8043c9c4bf6int, m, 0x1ec49a1144a7815bc0d7a6cint, 0x50e429ec863aaaac4336f8int);
    let e = lemma_leaves_square(b, e, 0x50e429ec863aaaac4336f8int, m, 0x30388d29e9a1c34f591feint, 0x40497f25427075845a2c4c2int);
    let e = lemma_leaves_square(b, e, 0x40497f25427075845a2c4c2int, m, 0x1e74dbea2ed1d447b2f0bf4int, 0x5e24ad73b97649c32b3e10int);
    let e = lemma_leaves_next(b, e, 0x5e24ad73b97649c32b3e10int, m, 0x5527c18cfb06c442172cint, 0x727a3412c8a65ac1e444f64int);
    let e = lemma_leaves_square(b, e, 0x727a3412c8a65ac1e444f64int, m, 0x609392ed871b300ad0ea0caint, 0x47a2f514f3e441405836dc6int);
    let e = lemma_leaves_next(b, e, 0x47a2f514f3e441405836dc6int, m, 0x40cc1d4a37a87309b0b8cint, 0x3505df3fb286d666881a40aint);
    let e = lemma_leaves_square(b, e, 0x3505df3fb286d666881a40aint, m, 0x14b7f3dded4245200ae770dint, 0xd787d99cbd43cbd1f54f17int);
    let e = lemma_leaves_square(b, e, 0xd787d99cbd43cbd1f54f17int, m, 0x156558b3152a7b5329b012int, 0x5d20180d62f8004d6d0097fint);
    let e = lemma_leaves_next(b, e, 0x5d20180d62f8004d6d0097fint, m, 0x543c0cfad6c0a4438a4d8int, 0x314295eaddcd94f06f0c2fint);
    let e = lemma_leaves_square(b, e, 0x314295eaddcd94f06f0c2fint, m, 0x11e1dc85c955346b3c700int, 0x665fe186eefe4169ffbe9a1int);
    let e = lemma_leaves_square(b, e, 0x665fe186eefe4169ffbe9a1int, m, 0x4d3c3e4ab88dcfe58688167int, 0x4d684a37d7510c04019071aint);
    let e = lemma_leaves_next(b, e, 0x4d684a37d7510c04019071aint, m, 0x4604677a574b834937f3eint, 0x5e5ed8704e37b902121fe8cint);
    let e = lemma_leaves_square(b, e, 0x5e5ed8704e37b902121fe8cint, m, 0x41a15c9c430741ba6bd8499int, 0x4a069b4be4cd87b6f8c06b7int);
    let e = lemma_leaves_next(b, e, 0x4a069b4be4cd87b6f8c06b7int, m, 0x42f55e6827d9ee75b1312int, 0xc3ebac4a98a123cc59e0edint);
    let e = lemma_leaves_square(b, e, 0xc3ebac4a98a123cc59e0edint, m, 0x11adf9ed6d39a74b21a4a5int, 0x443a98cc5fcb11618f7be84int);
    let e = lemma_leaves_next(b, e, 0x443a98cc5fcb11618f7be84int, m, 0x3db70a0d4adcdd0167503int, 0x67b8c143c68f3a8d7dda5a1int);
    let e = lemma_leaves_square(b, e, 0x67b8c143c68f3a8d7dda5a1int, m, 0x4f480a30d9091b6a4f83e30int, 0x3c7733da5f8c7d69aa29511int);
}

/// A power of an element, step by step.
proof fn power_92_bits_to_58_bits_3()
    ensures
        leaves(0x7abdbdcd50b580e230e79int, 0x171c0161ae3f6nat, 0x65f2255fe77bbea8448eee2int, 0x87b23e9d09d3e637b2aa341int),
{
    let (b, m) = (0x7abdbdcd50b580e230e79int, 0x87b23e9d09d3e637b2aa341int);
    power_92_bits_to_58_bits_2();
    let e = 0x171c0161aenat;
    let e = lemma_leaves_square(b, e, 0x3c7733da5f8c7d69aa29511int, m, 0x1af176321a094d7384ceb80int, 0x49b903ff3ba91420bd67fa1int);
    let e = lemma_leaves_square(b, e, 0x49b903ff3ba91420bd67fa1int, m, 0x280d8fadabc04b351efb36eint, 0xeb9982dd8c50eebfa58a53int);
    let e = lemma_leaves_square(b, e, 0xeb9982dd8c50eebfa58a53int, m, 0x1990e0100cb5c8099a3810int, 0x41cdfb56a12c172ef412ad9int);
    let e = lemma_leaves_next(b, e, 0x41cdfb56a12c172ef412ad9int, m, 0x3b85acd1ceb95ac7ca878int, 0x3aff75d4da8869fe934f019int);
    let e = lemma_leaves_square(b, e, 0x3aff75d4da8869fe934f019int, m, 0x19a6aaf571d9d9211f3446fint, 0x148b9e51434a2d1eac9d542int);
    let e = lemma_leaves_next(b, e, 0x148b9e51434a2d1eac9d542int, m, 0x129579e516d114c518813int, 0x3e1198c4f0417ea089fc25fint);
    let e = lemma_leaves_square(b, e, 0x3e1198c4f0417ea089fc25fint, m, 0x1c640cb35093965e0321ce8int, 0x502d3d669431d12ea651059int);
    let e = lemma_leaves_next(b, e, 0x502d3d669431d12ea651059int, m, 0x4885ab790ae227dcc6058int, 0x64965e0d529365b422819b9int);
    let e = lemma_leaves_square(b, e, 0x64965e0d529365b422819b9int, m, 0x4a8fefd8ec5366ab30d6141int, 0x850340b27de1fe945699330int);
    let e = lemma_leaves_next(b, e, 0x850340b27de1fe945699330int, m, 0x7850566779f3460660705int, 0x3a96af8661a3a5056513a6bint);
    let e = lemma_leaves_square(b, e, 0x3a96af8661a3a5056513a6bint, m, 0x194be04e2015314736b2beaint, 0x757952aab71790abb7a844fint);
    let e = lemma_leaves_next(b, e, 0x757952aab71790abb7a844fint, m, 0x6a422f82b501b9d62727bint, 0x5e12105351ee68632e0791cint);
    let e = lemma_leaves_square(b, e, 0x5e12105351ee68632e0791cint, m, 0x4136bc37abbb8a7f269657aint, 0x108a68952de883b2de80916int);
    let e = lemma_leaves_next(b, e, 0x108a68952de883b2de80916int, m, 0xef624f15afc7fcd0b4c8int, 0x7247a81ead497120044409eint);
    let e = lemma_leaves_square(b, e, 0x7247a81ead497120044409eint, m, 0x603e5cb4ea54191017b481cint, 0x561108f65fe6df43c703e68int);
    let e = lemma_leaves_square(b, e, 0x561108f65fe6df43c703e68int, m, 0x3696a516b0c9134acfd345dint, 0x725923d89b61c87ff5307a3int);
    let e = lemma_leaves_next(b, e, 0x725923d89b61c87ff5307a3int, m, 0x676e65ab4cb84c82984e2int, 0x627533e3d65ded388b7e2a9int);
    let e = lemma_leaves_square(b, e, 0x627533e3d65ded388b7e2a9int, m, 0x477043fd63d9cdb25b807abint, 0x1a8392e851d49d53aa30026int);
    let e = lemma_leaves_next(b, e, 0x1a8392e851d49d53aa30026int, m, 0x17fb8e4814b60b5464704int, 0x2a17fc61d47852c618791f2int);
    let e = lemma_leaves_square(b, e, 0x2a17fc61d47852c618791f2int, m, 0xd0ec47420ac1a4312cdb62int, 0x65f2255fe77bbea8448eee2int);
}

/// A power of an element, step by step.
proof fn power_92_bits_to_58_bits_4()
    ensures
        leaves(0x7abdbdcd50b580e230e79int, 0x2e3802c35c7ed3bnat, 0x1int, 0x87b23e9d09d3e637b2aa341int),
{
    let (b, m) = (0x7abdbdcd50b580e230e79int, 0x87b23e9d09d3e637b2aa341int);
    power_92_bits_to_58_bits_3();
    let e = 0x171c0161ae3f6nat;
    let e = lemma_leaves_square(b, e, 0x65f2255fe77bbea8448eee2int, m, 0x4c9703691c610787da49c68int, 0x3c396379c8ee550f697111cint);
    let e = lemma_leaves_next(b, e, 0x3c396379c8ee550f697111cint, m, 0x367978af37c2753a8dd6aint, 0x2d743be682427a2aaebe852int);
    let e = lemma_leaves_square(b, e, 0x2d743be682427a2aaebe852int, m, 0xf39c6fd816374aa9f3639eint, 0x1bab60784a2fca8e03ad526int);
    let e = lemma_leaves_square(b, e, 0x1bab60784a2fca8e03ad526int, m, 0x5a459ec493c763c98a8eebint, 0x325604c1a59987705f456f9int);
    let e = lemma_leaves_square(b, e, 0x325604c1a59987705f456f9int, m, 0x12ac04e7f139bc0836b8d13int, 0x15dcdc41d6c7bc482f4535eint);
    let e = lemma_leaves_next(b, e, 0x15dcdc41d6c7bc482f4535eint, m, 0x13c6856d3810672c4377aint, 0x649e13822a93c9500bbc774int);
    let e = lemma_leaves_square(b, e, 0x649e13822a93c9500bbc774int, m, 0x4a9b5e01ef3e66d746a805eint, 0x725d1b190c7365a66ab1ab2int);
    let e = lemma_leaves_next(b, e, 0x725d1b190c7365a66ab1ab2int, m, 0x6771fbfe57c8871eb8dbfint, 0x2497e9078ee6a975645bfa3int);
    let e = lemma_leaves_square(b, e, 0x2497e9078ee6a975645bfa3int, m, 0x9de41dc5069607b8962dd7int, 0x7fdedbcaff1bec011bb1932int);
    let e = lemma_leaves_next(b, e, 0x7fdedbcaff1bec011bb1932int, m, 0x73a99f02d92f3ad1d9af5int, 0x6137bdea165c6bed9454d6dint);
    let e = lemma_leaves_square(b, e, 0x6137bdea165c6bed9454d6dint, m, 0x45a67bc2474660bfdd0bd0dint, 0x42de6d18b1e5d0f00ab791cint);
    let e = lemma_leaves_square(b, e, 0x42de6d18b1e5d0f00ab791cint, m, 0x20f3ac99644ae7bdeee8985int, 0x8380adb0b903c1911c0e14bint);
    let e = lemma_leaves_next(b, e, 0x8380adb0b903c1911c0e14bint, m, 0x76f2ab84982e0e00c0db3int, 0x6567a02b7f2cec207972300int);
    let e = lemma_leaves_square(b, e, 0x6567a02b7f2cec207972300int, m, 0x4bc76e3b1b985a327c4caf7int, 0x414614e24cf7511ef103249int);
    let e = lemma_leaves_next(b, e, 0x414614e24cf7511ef103249int, m, 0x3b0abfda54d611842a280int, 0x1int);
}

/// A prime of 92 bits.
pub proof fn lemma_prime_92_bits()
    ensures
        prime(0x87b23e9d09d3e637b2aa341int),
{
    crate::primes::small::lemma_prime_58_bits();
    power_92_bits_to_58_bits_4();
    lemma_of_prime_order(
        0x7abdbdcd50b580e230e79int,
        0x2e3802c35c7ed3bint,
        0x693de961c10a589c336a85aint,
        0x87b23e9d09d3e637b2aa341int,
        0x5f31bbe910222ca6acd6fint,
    );
    lemma_prime_by_one(
        0x87b23e9d09d3e637b2aa341int,
        0x7abdbdcd50b580e230e79int,
        0x2e3802c35c7ed3bint,
        0x693de961c10a589c336a85aint,
    );
}

/// A power of an element, step by step.
proof fn power_256_bits_to_1002328039319_0()
    ensures
        leaves(0xa7a419086c4d06e3581581fc8cea9fd97004e8cbd03ae8c54ff7837cceee9919int, 0x1d2bnat, 0xce03783b3cbb37feab8c86c2ff7e88a6c28a2835af8906e3343992cc29e47416int, 0xffffffff00000000ffffffffffffffffbce6faada7179e84f3b9cac2fc632551int),
{
    let (b, m) = (0xa7a419086c4d06e3581581fc8cea9fd97004e8cbd03ae8c54ff7837cceee9919int, 0xffffffff00000000ffffffffffffffffbce6faada7179e84f3b9cac2fc632551int);
    lemma_leaves_first(b, m);
    let e = 1nat;
    let e = lemma_leaves_square(b, e, 0xa7a419086c4d06e3581581fc8cea9fd97004e8cbd03ae8c54ff7837cceee9919int, m, 0x6dc781d9805168f480b8bca7b7d604d013e181110e3d8775b410c47612a6fdd9int, 0x69fb1c3e5fe713db71b3439637ff35df63bb10c87479d273df35807719935c8int);
    let e = lemma_leaves_next(b, e, 0x69fb1c3e5fe713db71b3439637ff35df63bb10c87479d273df35807719935c8int, m, 0x4566bea8105cb9410ae2df0c2eaadaefa983b8317be914a1e6eafceb0efe472int, 0xdd2ba844e6a8d5c8a819e5e8e140fbcd461156625f96b90a9970323361090676int);
    let e = lemma_leaves_square(b, e, 0xdd2ba844e6a8d5c8a819e5e8e140fbcd461156625f96b90a9970323361090676int, m, 0xbf1467f9ab13e71621c16d7ceb49e07758674dfa6f5c3c6bb6efe9f40e1045d9int, 0xb221ce90308050a387d1dd9c4e34b6ef6b956d0e6455d675cdf0987b744c47bbint);
    let e = lemma_leaves_next(b, e, 0xb221ce90308050a387d1dd9c4e34b6ef6b956d0e6455d675cdf0987b744c47bbint, m, 0x74a63cd4023f68fae1c96d5f14f73f8a6e62957f700539fc46c46678f820dd56int, 0x8bdafb757b66f6139a4101caf96e4dddcd370fd3874389634160cee199864e0dint);
    let e = lemma_leaves_square(b, e, 0x8bdafb757b66f6139a4101caf96e4dddcd370fd3874389634160cee199864e0dint, m, 0x4c6788631b7f18dd20205769d082911a36019917c86561caa28041d9762642fcint, 0xaa36b5ca190b279963c7f772f07a3987a94c851bc9dde417b20eb505762a4eedint);
    let e = lemma_leaves_square(b, e, 0xaa36b5ca190b279963c7f772f07a3987a94c851bc9dde417b20eb505762a4eedint, m, 0x712cb5220cc97d6356e508a4f442167d938019829b1bfde15c7a86795fc9b18dint, 0xd95cf20f796b7f877979725134b0d253800b20a9d2ba9f328773c3228f17b8ccint);
    let e = lemma_leaves_next(b, e, 0xd95cf20f796b7f877979725134b0d253800b20a9d2ba9f328773c3228f17b8ccint, m, 0x8e56f6b4f2f590074e38f1b25d0c0cb252fa6c1a4bb4b8521c9ebe67f7a5685dint, 0x3888a2bd0307208289c70b5fe31336dd9dffe14b8e2b76b67b736599f108817fint);
    let e = lemma_leaves_square(b, e, 0x3888a2bd0307208289c70b5fe31336dd9dffe14b8e2b76b67b736599f108817fint, m, 0xc7c10200e16294e2647f3b95636b5f8e952cde87d6e23ac8ce7ed98542d9fe3int, 0xcd86b7481d993fd088104dd1c9ad7c11e0dd93e3fa20cf3d591e137bf41cd72eint);
    let e = lemma_leaves_square(b, e, 0xcd86b7481d993fd088104dd1c9ad7c11e0dd93e3fa20cf3d591e137bf41cd72eint, m, 0xa501086e871fa3b26d3344fdc91ef1e97a8e1c63f12ef80ddfd7de4b1ff320a8int, 0x865942438ed22835a4ab2607720c5aa7f52457e3b6db280c1edc67c53650af1cint);
    let e = lemma_leaves_square(b, e, 0x865942438ed22835a4ab2607720c5aa7f52457e3b6db280c1edc67c53650af1cint, m, 0x4681907e2425c82e69be689e745d7050c72300efb923308b9545b7bf947a08e1int, 0x135195c90c44210b9f41575f242bdbe27e082aa2660cd56c57ca87e1305ef6dfint);
    let e = lemma_leaves_next(b, e, 0x135195c90c44210b9f41575f242bdbe27e082aa2660cd56c57ca87e1305ef6dfint, m, 0xca69addc2cc73cc6ffc4aaff44e3011c63028e289e800d5223ff257029ec2eeint, 0x115c70422e6f5b9aee875617c3e262723334cda4dd12b8c4b226de4effb14f79int);
    let e = lemma_leaves_square(b, e, 0x115c70422e6f5b9aee875617c3e262723334cda4dd12b8c4b226de4effb14f79int, m, 0x12d6849ac238c3b7ffe909c84ec0f774c469ebcf3a5636b7100969e5171b665int, 0x8f16816f8425631a7e37b0896bfcba589f0c16983c10b6d622c21df1e297983cint);
    let e = lemma_leaves_square(b, e, 0x8f16816f8425631a7e37b0896bfcba589f0c16983c10b6d622c21df1e297983cint, m, 0x4ffa26956638357b42512f886cc0e230547296dbb766893296c2e3b78e9e5447int, 0xb010d5aeb2a236c19437e8540d2d9d5b2a42566b830851697fabc0d763936099int);
    let e = lemma_leaves_next(b, e, 0xb010d5aeb2a236c19437e8540d2d9d5b2a42566b830851697fabc0d763936099int, m, 0x734bd765bd9ee9e2cbdd6c9ae7e5cbc0ec6108ea65f838a384722415b9b1494fint, 0x366e317a33f3277bb3287f1ac740d01178c7225914b6c85770709193c2042f2int);
    let e = lemma_leaves_square(b, e, 0x366e317a33f3277bb3287f1ac740d01178c7225914b6c85770709193c2042f2int, m, 0xb92ac4e2811e824ddcc0d6ec45d4c72c63e9eb9ebb1b1a1da039fa701b097int, 0xa7c7613e4232f59b31776c4854458164b3ab3f0a2fbb743a97faca25398df9fdint);
    let e = lemma_leaves_square(b, e, 0xa7c7613e4232f59b31776c4854458164b3ab3f0a2fbb743a97faca25398df9fdint, m, 0x6df5bc27fc0f61209fd73f5ab1d8253f56a7f4c0d735cc845534d444444a6649int, 0x36266c42e16bffe606b83314c87c22f80f6c20a3985bf067e9c544f2384239f0int);
    let e = lemma_leaves_next(b, e, 0x36266c42e16bffe606b83314c87c22f80f6c20a3985bf067e9c544f2384239f0int, m, 0x2375c688a80a0e71de24e4f8c5e4708fbc06f8e1db8a9af864e5b8ca1bf7ac12int, 0xa0037d54d99917979abfd9f7e749cf8030a61a8d4c7710943eaa11ed28060cbeint);
    let e = lemma_leaves_square(b, e, 0xa0037d54d99917979abfd9f7e749cf8030a61a8d4c7710943eaa11ed28060cbeint, m, 0x64045cb6a15ccc6952cc4ed0d0db247fc4a089342371bc38b6daeeac7a98d9b0int, 0x74416b9df63ff53e22e9a662d33bdbdbc684702daa7d6da46a8e8edba8a70c54int);
    let e = lemma_leaves_next(b, e, 0x74416b9df63ff53e22e9a662d33bdbdbc684702daa7d6da46a8e8edba8a70c54int, m, 0x4c21327b7fb30aa09207cba5a71802443b6e09a247ae07917bf0254e78ffa2beint, 0xce03783b3cbb37feab8c86c2ff7e88a6c28a2835af8906e3343992cc29e47416int);
}

/// A power of an element, step by step.
proof fn power_256_bits_to_1002328039319_1()
    ensures
        leaves(0xa7a419086c4d06e3581581fc8cea9fd97004e8cbd03ae8c54ff7837cceee9919int, 0x1d2bed0nat, 0x1827ae31cee2343d65758057593dc13ff552ceeb15f56d528f853e9b9386fbf1int, 0xffffffff00000000ffffffffffffffffbce6faada7179e84f3b9cac2fc632551int),
{
    let (b, m) = (0xa7a419086c4d06e3581581fc8cea9fd97004e8cbd03ae8c54ff7837cceee9919int, 0xffffffff00000000ffffffffffffffffbce6faada7179e84f3b9cac2fc632551int);
    power_256_bits_to_1002328039319_0();
    let e = 0x1d2bnat;
    let e = lemma_leaves_square(b, e, 0xce03783b3cbb37feab8c86c2ff7e88a6c28a2835af8906e3343992cc29e47416int, m, 0xa5c9958c0561e6b11cd95ab31f0debd5af73936bf7dabb74f89385e997804965int, 0x624f460ffefe3d984309e49ea91520ba019c47be3d6d13b15b8ac2e9bf921fefint);
    let e = lemma_leaves_next(b, e, 0x624f460ffefe3d984309e49ea91520ba019c47be3d6d13b15b8ac2e9bf921fefint, m, 0x4060bb1a8be0b69adce2246757f77c979dd999014cdabde56d42f3656a727f9fint, 0xaa1e77efc06403967e524507d2e65d9dc3e7efdf48f6634eef7d78c2f3639908int);
    let e = lemma_leaves_square(b, e, 0xaa1e77efc06403967e524507d2e65d9dc3e7efdf48f6634eef7d78c2f3639908int, m, 0x710c7aeb30f32c853d9c5975837db131b0aa9105dd6c6ea88c989d99a2966624int, 0xc654e7933cddda4944a5942fccc021738b6d125aa27a9c8f384dd4bc9650adcint);
    let e = lemma_leaves_next(b, e, 0xc654e7933cddda4944a5942fccc021738b6d125aa27a9c8f384dd4bc9650adcint, m, 0x81e084daba14587d50175672ce202e2f43d1424c0ee7a16d2e0c8c746190c6dint, 0x87311c9574a8794e2db2e3fe05f895c568626ca4093aeef92fc0c44d4803dbffint);
    let e = lemma_leaves_square(b, e, 0x87311c9574a8794e2db2e3fe05f895c568626ca4093aeef92fc0c44d4803dbffint, m, 0x4764d591dcd636c65560f7f447b347cb5256888de5f7e7342c263d75c57e3325int, 0x65bf88d72f8f9b186dead769109205c9cef87124a68056246b48f5356766c04cint);
    let e = lemma_leaves_next(b, e, 0x65bf88d72f8f9b186dead769109205c9cef87124a68056246b48f5356766c04cint, m, 0x42a12aeb59e70689af1a5d0bd1e3d5cede6ee5ad5b8e2ba5d15c0269debc6bc4int, 0xe72f23cc227abd5ebc1e572c90a65d5f5b3e6580edac076197e8b5ec1ea0c668int);
    let e = lemma_leaves_square(b, e, 0xe72f23cc227abd5ebc1e572c90a65d5f5b3e6580edac076197e8b5ec1ea0c668int, m, 0xd0c61b4960f5ba4f9881ff0ef77f1dd26632d3ebf4f48304a8ca7ca916a1ceb3int, 0xb4697ef865d00dc351faa6ab122af8c3d27800b3b5fc570db15327c24c79c49dint);
    let e = lemma_leaves_square(b, e, 0xb4697ef865d00dc351faa6ab122af8c3d27800b3b5fc570db15327c24c79c49dint, m, 0x7f248607350e134ae4900a5507e9079e7ac5690d3e993c05a1b930a5fda500e5int, 0xc4aac8671d2628a6e934af16cf3f210ee9f8e93fe7d438cb1d601533cc8566d4int);
    let e = lemma_leaves_next(b, e, 0xc4aac8671d2628a6e934af16cf3f210ee9f8e93fe7d438cb1d601533cc8566d4int, m, 0x80c9795f4cf7989bcb83abb2514f6f06d46fdf87a3275e2fb53c2b64be5bf56dint, 0xe809081ffb929e47dc4c18d86d5b8543a8b522d2d08f07ab04cd629a29db5637int);
    let e = lemma_leaves_square(b, e, 0xe809081ffb929e47dc4c18d86d5b8543a8b522d2d08f07ab04cd629a29db5637int, m, 0xd2505f0c5ccbd1f4f97286d093e119b4a258dad8949e7df1bdb423e7ae1a6ed1int, 0x207fbb8f8d0653029b3ef5095ed64b36474bc53cbe75ef6ad827bd8dbdeebab0int);
    let e = lemma_leaves_next(b, e, 0x207fbb8f8d0653029b3ef5095ed64b36474bc53cbe75ef6ad827bd8dbdeebab0int, m, 0x1548285c6d4c2c3e13c6ca462978023cf9f2c8d873096754d961b3b8464bcdf5int, 0x26aafa041ac44d78b16c3aa9d19b50aa732f952be499a5a67666b1976503d7abint);
    let e = lemma_leaves_square(b, e, 0x26aafa041ac44d78b16c3aa9d19b50aa732f952be499a5a67666b1976503d7abint, m, 0x5d7346a3f690c7932c839c77164ab80217360bdd61e5edf8a34a975cc76355cint, 0x5bfb7cc18aebf68f40290322c139ba7fdc43099e468f9fde32bdcf2db8017e1dint);
    let e = lemma_leaves_square(b, e, 0x5bfb7cc18aebf68f40290322c139ba7fdc43099e468f9fde32bdcf2db8017e1dint, m, 0x210cc1bf9a22fea627a2ff04eb89f9e579a7045b645d158c9c233fcbb87a3a2bint, 0x77ce84887e86174c1fc9972d42021dd8c9ff10a6c2e2d15a5c3415420ea4f0aeint);
    let e = lemma_leaves_next(b, e, 0x77ce84887e86174c1fc9972d42021dd8c9ff10a6c2e2d15a5c3415420ea4f0aeint, m, 0x4e7484795c83b0725ee99ab590fb3bca92ae7ea386694073c0e6ab025645905aint, 0x2a913fbed959fd0518caacce391d41e61ff0bfe817a987aba3bcd2170309d084int);
    let e = lemma_leaves_square(b, e, 0x2a913fbed959fd0518caacce391d41e61ff0bfe817a987aba3bcd2170309d084int, m, 0x713fb53ec77378bd5f196dc6f60974a4a6a7d2d54be51bebb16772f5ab2f000int, 0x39ace538676240a46d921442321baff8d52c9e34f2a9c75e7cdd9d710bd0d410int);
    let e = lemma_leaves_square(b, e, 0x39ace538676240a46d921442321baff8d52c9e34f2a9c75e7cdd9d710bd0d410int, m, 0xcfe72d7fc11150b313395350eef84e0fe91b4c693044dac7e9f9860aa260eb3int, 0x8b12a8254edf0285fb413b9389a01f3b2a121745415eb34b7f729eaf7046fb5dint);
    let e = lemma_leaves_square(b, e, 0x8b12a8254edf0285fb413b9389a01f3b2a121745415eb34b7f729eaf7046fb5dint, m, 0x4b8d43f4e2e385030919a93c080417ef683690e1230b6eaf6555a95292d060caint, 0x3317172a021265bea402552a11564464357ce1bd8c56f6f2e21a7f7cf5a1addfint);
    let e = lemma_leaves_square(b, e, 0x3317172a021265bea402552a11564464357ce1bd8c56f6f2e21a7f7cf5a1addfint, m, 0xa32354ff2aa7c6c22689c65ee1632af8c2fecb169bf052700d260b32e159350int, 0x1827ae31cee2343d65758057593dc13ff552ceeb15f56d528f853e9b9386fbf1int);
}

/// A power of an element, step by step.
proof fn power_256_bits_to_1002328039319_2()
    ensures
        leaves(0xa7a419086c4d06e3581581fc8cea9fd97004e8cbd03ae8c54ff7837cceee9919int, 0x1d2bed03f2nat, 0x31cc5782e85b722bc469e20bd15e3c844bbfc87a69852a51ac8c43488b0bea1dint, 0xffffffff00000000ffffffffffffffffbce6faada7179e84f3b9cac2fc632551int),
{
    let (b, m) = (0xa7a419086c4d06e3581581fc8cea9fd97004e8cbd03ae8c54ff7837cceee9919int, 0xffffffff00000000ffffffffffffffffbce6faada7179e84f3b9cac2fc632551int);
    power_256_bits_to_1002328039319_1();
    let e = 0x1d2bed0nat;
    let e = lemma_leaves_square(b, e, 0x1827ae31cee2343d65758057593dc13ff552ceeb15f56d528f853e9b9386fbf1int, m, 0x24776cfe2c6a873a7066ce0e763a62ea8fadf8dbe40ddcf53f4624f9fb156acint, 0xc00b96a0b69d3f905bd0f9cec85fc36f874b445ed8675aa44152c7d581173075int);
    let e = lemma_leaves_square(b, e, 0xc00b96a0b69d3f905bd0f9cec85fc36f874b445ed8675aa44152c7d581173075int, m, 0x90116277ec6dae3869ce3d70151222014bcd05cc1c23e18fc7074c53909bcf4fint, 0x7d970a0517a4f25d15b7bc11edf15e5f6c7090ab60fb525e7138f3197262127aint);
    let e = lemma_leaves_square(b, e, 0x7d970a0517a4f25d15b7bc11edf15e5f6c7090ab60fb525e7138f3197262127aint, m, 0x3d9cd8e6091a381d6e1236ca1efa1cf9c4f566a49da8feff468edaa9dcb5187dint, 0xb9a39e45f90f79df96d9866aa71a7a101e5aeab84fc8459645122a58488f9197int);
    let e = lemma_leaves_next(b, e, 0xb9a39e45f90f79df96d9866aa71a7a101e5aeab84fc8459645122a58488f9197int, m, 0x7990bb3899f80b202c37c2b407558852d7b277a0f044621b17e7a23ca2984202int, 0x53e04240f0944353849287bebab626bc41d772b053250430442038b2cded4a1dint);
    let e = lemma_leaves_square(b, e, 0x53e04240f0944353849287bebab626bc41d772b053250430442038b2cded4a1dint, m, 0x1b7b2f6a3a45e30db7d8c64f1286d15d066a0c0dac5fcf74e6dd734e1f5049f7int, 0x917f6adc80ee0a2232d021313167dadb9dcdcb73be5ab38d39d4c6b07f89ad22int);
    let e = lemma_leaves_next(b, e, 0x917f6adc80ee0a2232d021313167dadb9dcdcb73be5ab38d39d4c6b07f89ad22int, m, 0x5f476290e79dab78f9166a6805c4998369ae15f3a6db1df7b0af3bbef04b2f6bint, 0xb70b0cf6e1af8bfb3cf55818d80b952b25e5080c5fe883eec727b4427e81c277int);
    let e = lemma_leaves_square(b, e, 0xb70b0cf6e1af8bfb3cf55818d80b952b25e5080c5fe883eec727b4427e81c277int, m, 0x82e0cd0397693f7946bd147f3d4e00560a055da356b59ec97383ff43023fdd06int, 0x56e9abbbe453a51a1c95937186f121fa6a7a920519ee08f3633a3037612dc66bint);
    let e = lemma_leaves_next(b, e, 0x56e9abbbe453a51a1c95937186f121fa6a7a920519ee08f3633a3037612dc66bint, m, 0x38ea25397d126dc0f43d273ebe3f8946f0b4b039430ef36ed73f503331c9a6e2int, 0x3421589ef6490971107dd58df8ef4caa69cda086c4d1f1e62de1869e8335dbf1int);
    let e = lemma_leaves_square(b, e, 0x3421589ef6490971107dd58df8ef4caa69cda086c4d1f1e62de1869e8335dbf1int, m, 0xa9d90589654670a0f260bc6c138a3408e6bd4627f245417a1d9655a1ac60150int, 0x8ccaead03831d1e7d653511802bf8e5067201bea6d8000da04157a0b1bf93e91int);
    let e = lemma_leaves_next(b, e, 0x8ccaead03831d1e7d653511802bf8e5067201bea6d8000da04157a0b1bf93e91int, m, 0x5c329ef11114c2aa4b7c96839951699ec8d6a0871cad50fecbe02f276ddb7825int, 0xa793122ee223dbdd83f289a068ac283e9aa070adc643657c83873f922d6c6874int);
    let e = lemma_leaves_square(b, e, 0xa793122ee223dbdd83f289a068ac283e9aa070adc643657c83873f922d6c6874int, m, 0x6db136377bde54a3a84a95e80218269916a09cc95ea59011bdde1abe27ede063int, 0x2bdfb3b6e650ea02883d936e7d0353f99cc2095534dce09d4b9ed21bd683263dint);
    let e = lemma_leaves_next(b, e, 0x2bdfb3b6e650ea02883d936e7d0353f99cc2095534dce09d4b9ed21bd683263dint, m, 0x1cbb0dd5d83f6fd0d13e0707f73616474d2f8a79ec0c8151658773fdc68a3b84int, 0x9d406714bf23fb0b0e8532d3a9b11ddc2cfbe17fa0d6f16692385e1a36fc4831int);
    let e = lemma_leaves_square(b, e, 0x9d406714bf23fb0b0e8532d3a9b11ddc2cfbe17fa0d6f16692385e1a36fc4831int, m, 0x60980ea386eb76099c02df69aba52d655ef1c69895b5c1bb8d1681888ec2a241int, 0xa0b017b9bf884f3ab9085d766cd4931d327ee97029f02190d4d447f0d8a7ddd0int);
    let e = lemma_leaves_next(b, e, 0xa0b017b9bf884f3ab9085d766cd4931d327ee97029f02190d4d447f0d8a7ddd0int, m, 0x6939e00043f703d08ab8e1dbb147a6ec154db4f77be8f9fa3a5ab2618fd1b160int, 0x61d1ddf4221ae508ca72b6ba21a532bcd64fd3d19cd5b17f0a759b352b39f9f0int);
    let e = lemma_leaves_square(b, e, 0x61d1ddf4221ae508ca72b6ba21a532bcd64fd3d19cd5b17f0a759b352b39f9f0int, m, 0x2560b63f5048336d43ede8eaffb1d8ea25bd74669a6f713aa8ee425ca95fb7adint, 0xb26190bb87b16517d43839f938f6c9235c92aebca9130400bf4fd4bf2028a243int);
    let e = lemma_leaves_square(b, e, 0xb26190bb87b16517d43839f938f6c9235c92aebca9130400bf4fd4bf2028a243int, m, 0x7c4bd27444eed97e9ea11d603bd6435b669e33803bcd32cbe67659033ce412b2int, 0xbc77fbca722fc38f6d83828f1b60b48573230d8ae978419360bf7ac2e153937int);
    let e = lemma_leaves_square(b, e, 0xbc77fbca722fc38f6d83828f1b60b48573230d8ae978419360bf7ac2e153937int, m, 0x8ac0720df0535db1ed8e55d765a2467b8dd245a22e63247f545f1a49f7fbdcint, 0xa3056758822509d4bf9d55420d9fcaaef634a3fca328453c53e296acfede0d35int);
    let e = lemma_leaves_next(b, e, 0xa3056758822509d4bf9d55420d9fcaaef634a3fca328453c53e296acfede0d35int, m, 0x6ac105d24094c30bed113f8f29f6624bdd6431d2fb502be3d6a7f0d9b00a321aint, 0x9f1da5cc2c6f8129dbfe792124c3951f72eb8e65eccf0fe62014fcab62545af3int);
    let e = lemma_leaves_square(b, e, 0x9f1da5cc2c6f8129dbfe792124c3951f72eb8e65eccf0fe62014fcab62545af3int, m, 0x62e5d762fdbb3f367383af365fc2f4a2b000a08b8a6a612aaed508e9fb015cccint, 0x31cc5782e85b722bc469e20bd15e3c844bbfc87a69852a51ac8c43488b0bea1dint);
}

/// A power of an element, step by step.
proof fn power_256_bits_to_1002328039319_3()
    ensures
        leaves(0xa7a419086c4d06e3581581fc8cea9fd97004e8cbd03ae8c54ff7837cceee9919int, 0xe95f681f97nat, 0x1int, 0xffffffff00000000ffffffffffffffffbce6faada7179e84f3b9cac2fc632551int),
{
    let (b, m) = (0xa7a419086c4d06e3581581fc8cea9fd97004e8cbd03ae8c54ff7837cceee9919int, 0xffffffff00000000ffffffffffffffffbce6faada7179e84f3b9cac2fc632551int);
    power_256_bits_to_1002328039319_2();
    let e = 0x1d2bed03f2nat;
    let e = lemma_leaves_square(b, e, 0x31cc5782e85b722bc469e20bd15e3c844bbfc87a69852a51ac8c43488b0bea1dint, m, 0x9afdc9bbd2f6ced61d0b52792d33549fbb46a8b4ced8a26ac3b04a6a3d0df06int, 0xe6fe0cefb0b8c713a2b7cab32eac58cb6efff433f68a728118d78cd645f29863int);
    let e = lemma_leaves_next(b, e, 0xe6fe0cefb0b8c713a2b7cab32eac58cb6efff433f68a728118d78cd645f29863int, m, 0x9743cbc7a60609da1167735dbe613523e8ab13168b7e03e8db85a26d4baa95e0int, 0xebedd67603248c9c7b263326393ba7215d0cceae3e934a7e28cdd513198b40cbint);
    let e = lemma_leaves_square(b, e, 0xebedd67603248c9c7b263326393ba7215d0cceae3e934a7e28cdd513198b40cbint, m, 0xd96e84b44d5ef42f1895b4c695ec5b184b2ed995791ca2f037562cf5b0083c4eint, 0x5a2e847a77c33e240848086ae7c0737110e81bdf95b6a7f204e7c0b3155bc64bint);
    let e = lemma_leaves_next(b, e, 0x5a2e847a77c33e240848086ae7c0737110e81bdf95b6a7f204e7c0b3155bc64bint, m, 0x3b0e270a802e197c158600810b669782c005477da81e74d6e1320526e843fe7cint, 0x886dd57c93baea09cd3932080ee575a44e631adfbc9977def89247d0d7f3bf17int);
    let e = lemma_leaves_square(b, e, 0x886dd57c93baea09cd3932080ee575a44e631adfbc9977def89247d0d7f3bf17int, m, 0x48b4e1f423c9d23e0d41b2673eb60f44e0964efb5e8789a8b4981c6cc0baaee1int, 0x9705b999b6e6a2e05fb400b80d65ac50d06ec47e6e39819ce16a874fe2f279e0int);
    let e = lemma_leaves_next(b, e, 0x9705b999b6e6a2e05fb400b80d65ac50d06ec47e6e39819ce16a874fe2f279e0int, m, 0x62e58a8316e0d543940d2c84c17aa3ebf8e2c674e61b06e26826920af13add2fint, 0x1int);
}

/// A power of an element, step by step.
proof fn power_256_bits_to_92_bits_0()
    ensures
        leaves(0xc0915601e1a4a1534a1b5bb0f18a5be8c8606856c8892723c90c7158d2e5baafint, 0x10f6nat, 0xf24906e9b65a1873c334c9b88a2b3b09a2c0bf8d8b6ea7eb28aa67c962ec7740int, 0xffffffff00000000ffffffffffffffffbce6faada7179e84f3b9cac2fc632551int),
{
    let (b, m) = (0xc0915601e1a4a1534a1b5bb0f18a5be8c8606856c8892723c90c7158d2e5baafint, 0xffffffff00000000ffffffffffffffffbce6faada7179e84f3b9cac2fc632551int);
    lemma_leaves_first(b, m);
    let e = 1nat;
    let e = lemma_leaves_square(b, e, 0xc0915601e1a4a1534a1b5bb0f18a5be8c8606856c8892723c90c7158d2e5baafint, m, 0x90da5385ee58259f3390d485047059b429c010db4a36cba21ca13d4838baa8e8int, 0x92c59530e863439e2eec20b420f28e96c720826bbf1fe21812dbf86e0207ca39int);
    let e = lemma_leaves_square(b, e, 0x92c59530e863439e2eec20b420f28e96c720826bbf1fe21812dbf86e0207ca39int, m, 0x5425f6ab116ed06cc125f5760464eb18d1a722f8dc46dec80d83ce28aaaae698int, 0xd2ee8f53ed3b3da32cfcf6cbae3d2422e7bf82276c917d40a781529412ad1299int);
    let e = lemma_leaves_square(b, e, 0xd2ee8f53ed3b3da32cfcf6cbae3d2422e7bf82276c917d40a781529412ad1299int, m, 0xadcc41752f4d6b46b1d4d6f9f0359268ed368095fbfb3dcaf39fcddcdbd1e7c8int, 0x2152e5f89db30de5109c11b75b74c22f04cd3127ff77cd4814fc29fb41e1a129int);
    let e = lemma_leaves_square(b, e, 0x2152e5f89db30de5109c11b75b74c22f04cd3127ff77cd4814fc29fb41e1a129int, m, 0x4567a223eda66007276a4399e310498068910d3cf18a4921ed25c0111cb999eint, 0x31a996aa839ad5cb7f12eb00d91e46229946106abde420484d44dc8082cd2793int);
    let e = lemma_leaves_square(b, e, 0x31a996aa839ad5cb7f12eb00d91e46229946106abde420484d44dc8082cd2793int, m, 0x9a25c0595d1a818395890a65db6c76db3039fb07f9b78391934e0930eff51e7int, 0x37acf5129f6f30501f97ee93afe9f34d0e9153e6fcd2bbf29d3b737cfd97d152int);
    let e = lemma_leaves_next(b, e, 0x37acf5129f6f30501f97ee93afe9f34d0e9153e6fcd2bbf29d3b737cfd97d152int, m, 0x29e1537974150d99fa52a710c4b40d1849de77b4625ef3cbe69f6b35c5bb9637int, 0x67df05b59151590112b0c921c6f18018fb21d358c70b7d45df013eb642e230a7int);
    let e = lemma_leaves_square(b, e, 0x67df05b59151590112b0c921c6f18018fb21d358c70b7d45df013eb642e230a7int, m, 0x2a2538e3378872aef74b328f55553ff20c86a0cfdc33be1c39c5941137640a9aint, 0xbdea16fb3366c74cae5c9831437993d1afe1b0a1a3ed54c04164b11c5e5d7037int);
    let e = lemma_leaves_next(b, e, 0xbdea16fb3366c74cae5c9831437993d1afe1b0a1a3ed54c04164b11c5e5d7037int, m, 0x8edb62a202b7ef6916d8f35fe7ceb9947392e36218277f732fe994eb77afbb05int, 0x372f01f6a0a9ec29d0777813584018e1868ac597aa8cb97021de80d96109c604int);
    let e = lemma_leaves_square(b, e, 0x372f01f6a0a9ec29d0777813584018e1868ac597aa8cb97021de80d96109c604int, m, 0xbe53b79bd811832dfc8ca2b0b804315c21b5cf88f16ac238371713b9381a638int, 0xa8177a4443f03201da7783240d3ce4fd0ceac72592fa1dac1cedd9d8bcbe8058int);
    let e = lemma_leaves_next(b, e, 0xa8177a4443f03201da7783240d3ce4fd0ceac72592fa1dac1cedd9d8bcbe8058int, m, 0x7e7109791162ce8b0630eb3a2f3d264d3ea4c1066e120038910bd9afede1e3c4int, 0xa8c0a8d88a8d05a5a79d022164b1c55c2ca4d3585576ba6e34e28b187f014724int);
    let e = lemma_leaves_square(b, e, 0xa8c0a8d88a8d05a5a79d022164b1c55c2ca4d3585576ba6e34e28b187f014724int, m, 0x6f3d6e9a5943468efedea19268eaf235c4a67152debad6daf5c26b6acd2f8b01int, 0x19142c1508c83641df0cdecbb981eb576230d6f349e265f9bd4effead187dcbfint);
    let e = lemma_leaves_next(b, e, 0x19142c1508c83641df0cdecbb981eb576230d6f349e265f9bd4effead187dcbfint, m, 0x12dd5de9c75b9882b4d12f50c21bc277fb54117bc0fed4138624d0ac2e6af03dint, 0x6d146c0020b7e6ab8924dabf9e0dcdefcb02dee7b5cb17c7a5334ec5fef7d844int);
    let e = lemma_leaves_square(b, e, 0x6d146c0020b7e6ab8924dabf9e0dcdefcb02dee7b5cb17c7a5334ec5fef7d844int, m, 0x2e7a659957ec385e75d7dc4c0c65bb8f08135ef99e20ccdd78474c6ce7b78ac8int, 0xce950f0010980d4e7be256b11a9bc617c9cd8b9108ab9a09452d9a7967100c8int);
    let e = lemma_leaves_square(b, e, 0xce950f0010980d4e7be256b11a9bc617c9cd8b9108ab9a09452d9a7967100c8int, m, 0xa6b43aef385d434a31080fd70d2fb20ff5d8c207fdd4aa7916705961a78d3dint, 0x8f3e8c483e2f5c1fd522bfaa7daa624bad09e2f9233604f2c7c25f49488c1af3int);
    let e = lemma_leaves_next(b, e, 0x8f3e8c483e2f5c1fd522bfaa7daa624bad09e2f9233604f2c7c25f49488c1af3int, m, 0x6bc03bc41fefe27d371b412be323007a2781580cda29d813b88654bdcd2797a2int, 0x9e3fdbfc86339323fe929928ae7dee7cfcb1db971848533c7fcb70ba16a295dbint);
    let e = lemma_leaves_square(b, e, 0x9e3fdbfc86339323fe929928ae7dee7cfcb1db971848533c7fcb70ba16a295dbint, m, 0x61d2e37a1acea1314c934bc6714263c177bd5363278b709bcb3437f3119356d5int, 0x40d57909a2c52d2116ee913371a68281797c7c37535cb389d9b230ee895a66f4int);
    let e = lemma_leaves_next(b, e, 0x40d57909a2c52d2116ee913371a68281797c7c37535cb389d9b230ee895a66f4int, m, 0x30c4e97929f203b69561d24b7f3687608c719d62a8fb6ef861d983e84fa7ad6dint, 0x434d52dc47f5695877a56088482c95e0fa8585684589ea67b28d45e00698084fint);
    let e = lemma_leaves_square(b, e, 0x434d52dc47f5695877a56088482c95e0fa8585684589ea67b28d45e00698084fint, m, 0x11b190ba52b12b24e85becd3748f2a3b99a4f8454c359d003056c65cf9e6fad1int, 0xf24906e9b65a1873c334c9b88a2b3b09a2c0bf8d8b6ea7eb28aa67c962ec7740int);
}

/// A power of an element, step by step.
proof fn power_256_bits_to_92_bits_1()
    ensures
        leaves(0xc0915601e1a4a1534a1b5bb0f18a5be8c8606856c8892723c90c7158d2e5baafint, 0x10f647dnat, 0x2470a31805b1ac020645201a1576ed7307156d15ed9b85b9c8520791e62b4ff4int, 0xffffffff00000000ffffffffffffffffbce6faada7179e84f3b9cac2fc632551int),
{
    let (b, m) = (0xc0915601e1a4a1534a1b5bb0f18a5be8c8606856c8892723c90c7158d2e5baafint, 0xffffffff00000000ffffffffffffffffbce6faada7179e84f3b9cac2fc632551int);
    power_256_bits_to_92_bits_0();
    let e = 0x10f6nat;
    let e = lemma_leaves_square(b, e, 0xf24906e9b65a1873c334c9b88a2b3b09a2c0bf8d8b6ea7eb28aa67c962ec7740int, m, 0xe54e25e7b38a456d485b6b5b221fbf7c98d742f0666e9b5958e4f6f633eb636bint, 0xa664e5a3eae6aaf3e785ca35efd8f4fbcff23d44a4bde0e493e65fd6dc52a425int);
    let e = lemma_leaves_square(b, e, 0xa664e5a3eae6aaf3e785ca35efd8f4fbcff23d44a4bde0e493e65fd6dc52a425int, m, 0x6c27019536d856b450a0470ebaca214b0ed1909b43e623276cc3b1156e50f27fint, 0xb039c4c59e4fe6725245deeee69d26fc3e7ae47b2dd28120543c95aec32d582aint);
    let e = lemma_leaves_next(b, e, 0xb039c4c59e4fe6725245deeee69d26fc3e7ae47b2dd28120543c95aec32d582aint, m, 0x848f5f81e2e2398e81be6a5cc3387acc3cbdf2cfea7c42bfcd1430f686de0208int, 0x947ad9b9eefa7ea251a73a35d23f07f6d35798f589cc58a36e4432f43fdfc2eint);
    let e = lemma_leaves_square(b, e, 0x947ad9b9eefa7ea251a73a35d23f07f6d35798f589cc58a36e4432f43fdfc2eint, m, 0x561e46b390d46e0f8ba643a69917153ead45934b9e0c3f02e243fe64b24242int, 0x5cda150a4b41db5212bdf8d271331df4c92c5ad60a41c0f0c2459ea847d61762int);
    let e = lemma_leaves_square(b, e, 0x5cda150a4b41db5212bdf8d271331df4c92c5ad60a41c0f0c2459ea847d61762int, m, 0x21ad78e75f07ab7687dae9e204d118aa6a2d08fe136682582ff8a46c95d70d8eint, 0xb8ef0a62409c215bd6d54634d7a51b5fd50c4be3deb494075aa26f81f20ff196int);
    let e = lemma_leaves_square(b, e, 0xb8ef0a62409c215bd6d54634d7a51b5fd50c4be3deb494075aa26f81f20ff196int, m, 0x85987e222659645da981c4604c4784510dc3ced1b4ff4dc81081363f5fb60ebfint, 0x3022a9bb9075fe49673a29cfbae736a6b5e1f6c9993b7b787f38435d7af67e75int);
    let e = lemma_leaves_square(b, e, 0x3022a9bb9075fe49673a29cfbae736a6b5e1f6c9993b7b787f38435d7af67e75int, m, 0x90d0457e594d133166065f8cc0cd106726394f4800b0ae261d28c177044a649int, 0x57b1f29e573e919b9092741eefdc98a560c4186cd71169f6ab1aaaae2f573760int);
    let e = lemma_leaves_next(b, e, 0x57b1f29e573e919b9092741eefdc98a560c4186cd71169f6ab1aaaae2f573760int, m, 0x41f73f37db94864a2518c4dce55811514eae431b35987bb60dce1dbabadf9e15int, 0x4f9714cbd3ddd0cf440c516b0ddb1a4f1b440ecd659fb340f1c261d0c3018cfbint);
    let e = lemma_leaves_square(b, e, 0x4f9714cbd3ddd0cf440c516b0ddb1a4f1b440ecd659fb340f1c261d0c3018cfbint, m, 0x18be97ff6fa5e9eff12a247852f6e90ea80499c9b301aa68944dcad7beb57fbeint, 0x2c8ce5bd47ed62c75ae6716933a79b460f909be9a9a1b1aa839629e9c83b9cfbint);
    let e = lemma_leaves_next(b, e, 0x2c8ce5bd47ed62c75ae6716933a79b460f909be9a9a1b1aa839629e9c83b9cfbint, m, 0x2182f713e0a9b6c6e1e42851d7918451040e38ece27ffef95acf17208ccb049bint, 0x35614f078ddac9a98b5088fb1ead750bae5853435acd5558e77d2b85437dd18aint);
    let e = lemma_leaves_square(b, e, 0x35614f078ddac9a98b5088fb1ead750bae5853435acd5558e77d2b85437dd18aint, m, 0xb216fb627fd30c93c0f153507191a1bb1743b75368c9d5ef64e97bd29d69afeint, 0xcb7554ab497584023b2741692501ef466729af7327beb2fecf1085f64ebede06int);
    let e = lemma_leaves_next(b, e, 0xcb7554ab497584023b2741692501ef466729af7327beb2fecf1085f64ebede06int, m, 0x990b8150ee6416065042f8a4bce0b5015655ff301e49435c7230b45370f7c1cdint, 0x14d72a138b5bcc6b131c54d720adda66e062b48357f054a515af33d9bd7a2f3dint);
    let e = lemma_leaves_square(b, e, 0x14d72a138b5bcc6b131c54d720adda66e062b48357f054a515af33d9bd7a2f3dint, m, 0x1b2536ac3372ac4f2eba943ae4ee8cf9dea9b2375f21397a11aee6c3798230aint, 0x5fa41be2ef29b8f267799acb76c6dec0e10560b36205ad8475e13f4d27c9ec5fint);
    let e = lemma_leaves_next(b, e, 0x5fa41be2ef29b8f267799acb76c6dec0e10560b36205ad8475e13f4d27c9ec5fint, m, 0x47f161001c29387bfb6e1d0eb2312a8bb5a3304bfcefd2131dda76bc39a69020int, 0x9e2229a172f11c8f59d2cf8cd705e52de457955d719ee35c3ee4068bad860d1int);
    let e = lemma_leaves_square(b, e, 0x9e2229a172f11c8f59d2cf8cd705e52de457955d719ee35c3ee4068bad860d1int, m, 0x61ae2ff2c13773e1ea84cfbb1adc7804f5ee8ee2296a2bd8921bb130350b43int, 0x3e529d42c1930dc702fd88f1f0ffd1ec731bcf6457b9a1cf0e7cabfbfefb2b6eint);
    let e = lemma_leaves_next(b, e, 0x3e529d42c1930dc702fd88f1f0ffd1ec731bcf6457b9a1cf0e7cabfbfefb2b6eint, m, 0x2ee157ad88f5010238df2e9e33a7f631ee9b4cc9e2151a0260c97d406cdda067int, 0xa55e91a2261924cae6b977a401921f7e1563b89c2998118d4d8b3bdcfa82f89bint);
    let e = lemma_leaves_square(b, e, 0xa55e91a2261924cae6b977a401921f7e1563b89c2998118d4d8b3bdcfa82f89bint, m, 0x6ad30aaab5dc846b96a1e1bcb4e9e8058bd70c6af2f2aa11cf6e32bda19bad85int, 0xa65f4dda491275360b3ef9da140ca70c526382bc6347978c4e8927cf82138dc4int);
    let e = lemma_leaves_square(b, e, 0xa65f4dda491275360b3ef9da140ca70c526382bc6347978c4e8927cf82138dc4int, m, 0x6c1fbc726292f23cadf2e58b1a77e5da126f3e447dfc6e015dfd1de1d1152989int, 0xa997de2f9991aa3227642a27cfeefcc60f7c19328d2dccbe60537ce246eb8cb7int);
    let e = lemma_leaves_next(b, e, 0xa997de2f9991aa3227642a27cfeefcc60f7c19328d2dccbe60537ce246eb8cb7int, m, 0x7f922ea34f6cd0023914fb0d5c8a520b6eb10b982b13a8bbaac53d42f7b76f95int, 0x2470a31805b1ac020645201a1576ed7307156d15ed9b85b9c8520791e62b4ff4int);
}

/// A power of an element, step by step.
proof fn power_256_bits_to_92_bits_2()
    ensures
        leaves(0xc0915601e1a4a1534a1b5bb0f18a5be8c8606856c8892723c90c7158d2e5baafint, 0x10f647d3a1nat, 0x3949aee0532fef37848864f2c0c4bc5a1035823551488db614bd9e85dbc508c7int, 0xffffffff00000000ffffffffffffffffbce6faada7179e84f3b9cac2fc632551int),
{
    let (b, m) = (0xc0915601e1a4a1534a1b5bb0f18a5be8c8606856c8892723c90c7158d2e5baafint, 0xffffffff00000000ffffffffffffffffbce6faada7179e84f3b9cac2fc632551int);
    power_256_bits_to_92_bits_1();
    let e = 0x10f647dnat;
    let e = lemma_leaves_square(b, e, 0x2470a31805b1ac020645201a1576ed7307156d15ed9b85b9c8520791e62b4ff4int, m, 0x52fdf6de3b66cc6448abb406425dcd41d8f9600aa8c321e692669b4020edc95int, 0x3309fed8f5f388ce26eb003b3c923004b588a1210bdc5b5b5da227599ebc2c6bint);
    let e = lemma_leaves_square(b, e, 0x3309fed8f5f388ce26eb003b3c923004b588a1210bdc5b5b5da227599ebc2c6bint, m, 0xa2cfbee65208f7f57afeed228d930d48d3a53747cc6c9bd9e2ed946a26ee94cint, 0x15e33a7dc7e373d42ccdd605ae2fbe789b39078a93caeae553b99694e3a927adint);
    let e = lemma_leaves_square(b, e, 0x15e33a7dc7e373d42ccdd605ae2fbe789b39078a93caeae553b99694e3a927adint, m, 0x1df11496d181c098588ee92176ceccf7096f6d8dac18c3e9a4fe637d999edd3int, 0xe3b5451233b6520d832dee1b54c74c6006e6b883b9b84ba9e26fb98270e36c26int);
    let e = lemma_leaves_next(b, e, 0xe3b5451233b6520d832dee1b54c74c6006e6b883b9b84ba9e26fb98270e36c26int, m, 0xab4939fb02ff658ebc43b946450e446207c2187abe6cf546b2b3f206fb5d2aceint, 0x5a8614d5c9c8d2653da2ff8333db9996c549059a157dd95d83d79596fcb438ccint);
    let e = lemma_leaves_square(b, e, 0x5a8614d5c9c8d2653da2ff8333db9996c549059a157dd95d83d79596fcb438ccint, m, 0x20028ce04365191c5cd0948e464a62d7baf070a3021c51df950422c5601b47f8int, 0x4e1ec6f9e94530e50ce84cd1aac01a14ed53aefe61f498dbd3788f153c894518int);
    let e = lemma_leaves_next(b, e, 0x4e1ec6f9e94530e50ce84cd1aac01a14ed53aefe61f498dbd3788f153c894518int, m, 0x3ac36ee9471678f09349e4391761b7aadacd14e992d8206f9795f6535ed4aff0int, 0xe793db7e77ad0cc5ba0ccb6025e33cd472b3d333f81c34f971c19cd293f85078int);
    let e = lemma_leaves_square(b, e, 0xe793db7e77ad0cc5ba0ccb6025e33cd472b3d333f81c34f971c19cd293f85078int, m, 0xd17c2b84dce58889a665548cfdb296c23c19ef81c03b28b2dd94960fb97b2427int, 0x4e18e7bae87c8be73b9cf615d627189c0f169e1885907bf508888399f68624e9int);
    let e = lemma_leaves_next(b, e, 0x4e18e7bae87c8be73b9cf615d627189c0f169e1885907bf508888399f68624e9int, m, 0x3abf04249ac1ea4896ab3cae922b18a9528e9f5e87273cdacecc613f4be08984int, 0x578c146d25b0b3a5df005e254f02a59cb963f1e4782efc0e6e4444818ef9ee83int);
    let e = lemma_leaves_square(b, e, 0x578c146d25b0b3a5df005e254f02a59cb963f1e4782efc0e6e4444818ef9ee83int, m, 0x1df08288a69112547db62c2d95476e78737eedd5c1fd9f3fade5bdd75c698892int, 0xe7a808347abe041dbbe78b8556290dd769cc2bf8bedf8b4b3f69ad3e267686d7int);
    let e = lemma_leaves_square(b, e, 0xe7a808347abe041dbbe78b8556290dd769cc2bf8bedf8b4b3f69ad3e267686d7int, m, 0xd1a0ad1a4c48045a831705bb3963bfccf33b922afe8901924d03f5bf4ad46f5bint, 0xb202547eb675b6cb6dbc79f3de6f8c1d50e59a8dc903a1a2d1c7a6fa63b965c6int);
    let e = lemma_leaves_next(b, e, 0xb202547eb675b6cb6dbc79f3de6f8c1d50e59a8dc903a1a2d1c7a6fa63b965c6int, m, 0x85e6ce7f81cfdbfd3a44bfb2eeb5e67d017d32a453e86e1b112fcbdcc99b0e0dint, 0x42f0fc80ad07b8f876bd04c1bb7df363d874d9d77f342c5a6f1cd35ee7ae1b3dint);
    let e = lemma_leaves_square(b, e, 0x42f0fc80ad07b8f876bd04c1bb7df363d874d9d77f342c5a6f1cd35ee7ae1b3dint, m, 0x1181250cd50b243c6377aa82b0734163b3a727a26aa9fa64b16ba91c2e7997efint, 0x240f4a00e843e4469ad674ec149a1805d37cedb85bbfc0bc28e04207d2f64eeaint);
    let e = lemma_leaves_square(b, e, 0x240f4a00e843e4469ad674ec149a1805d37cedb85bbfc0bc28e04207d2f64eeaint, m, 0x5144dba07e7242ab1593db9ffa7edbcfdce0b89d6540d6c0fdc67a428ea7a42int, 0x8632f8292bdf6bab35ff3b1becaca04e3cb3665975752672df2d1d5a94a93502int);
    let e = lemma_leaves_square(b, e, 0x8632f8292bdf6bab35ff3b1becaca04e3cb3665975752672df2d1d5a94a93502int, m, 0x465965f140ec398e3bac23cf6168812aea1965d017921605d6d94ed74e60a565int, 0x87a0a1790f97f16d43dea7fc00c62d46b76798eec7730fe173b6435c3112e60fint);
    let e = lemma_leaves_square(b, e, 0x87a0a1790f97f16d43dea7fc00c62d46b76798eec7730fe173b6435c3112e60fint, m, 0x47dacf18337a0c83ce09ba0b16b07ef852dc4a0d09d79e34e77e2d362ef9ba82int, 0x35a3f4016838869b599ebfcb3af30609199994399f8974a8a8ba66a0d99c27bfint);
    let e = lemma_leaves_square(b, e, 0x35a3f4016838869b599ebfcb3af30609199994399f8974a8a8ba66a0d99c27bfint, m, 0xb3d4c0942c21a6eafebd3de84c784bfe4996fa80f5692daad88343633e2a0b4int, 0x61bebe1b25dea5ad35a8481c5e24084d7226857045d7d6c15716ab7ec368e38dint);
    let e = lemma_leaves_next(b, e, 0x61bebe1b25dea5ad35a8481c5e24084d7226857045d7d6c15716ab7ec368e38dint, m, 0x49868c751f115986eeca7a1d9b874e6dcf3693c31026a9a8667f9463050c55dcint, 0x3949aee0532fef37848864f2c0c4bc5a1035823551488db614bd9e85dbc508c7int);
}

/// A power of an element, step by step.
proof fn power_256_bits_to_92_bits_3()
    ensures
        leaves(0xc0915601e1a4a1534a1b5bb0f18a5be8c8606856c8892723c90c7158d2e5baafint, 0x10f647d3a13a7nat, 0xf5b2046fbe151a354097e2f6c7b51d4330554c4466a4e4b794ea839f0ea67ad4int, 0xffffffff00000000ffffffffffffffffbce6faada7179e84f3b9cac2fc632551int),
{
    let (b, m) = (0xc0915601e1a4a1534a1b5bb0f18a5be8c8606856c8892723c90c7158d2e5baafint, 0xffffffff00000000ffffffffffffffffbce6faada7179e84f3b9cac2fc632551int);
    power_256_bits_to_92_bits_2();
    let e = 0x10f647d3a1nat;
    let e = lemma_leaves_square(b, e, 0x3949aee0532fef37848864f2c0c4bc5a1035823551488db614bd9e85dbc508c7int, m, 0xcd1e51525426499173909aaac06a90d44eadca35170cd227ec51b7bbd2640bdint, 0x650e1193556df917932ca5454518eff3f911f0cb3ec40c719e07e43487063de4int);
    let e = lemma_leaves_square(b, e, 0x650e1193556df917932ca5454518eff3f911f0cb3ec40c719e07e43487063de4int, m, 0x27e41aa4569f1f5bdb53c148ec34b6f5e41115040ea46ab54e7b1b2555831d40int, 0x44cf3eaf6b3756d693af648e619a0d27f732cce0e95357fd0d4910e21c2ff1d0int);
    let e = lemma_leaves_square(b, e, 0x44cf3eaf6b3756d693af648e619a0d27f732cce0e95357fd0d4910e21c2ff1d0int, m, 0x127ec113b27cfad69e163447d9524c0121ca90d9febb16fc06683e8571cba586int, 0x6d8c6952b3268ec2fa5958a414eb01e0c1a1848d19a743707031c337d39b8b9aint);
    let e = lemma_leaves_next(b, e, 0x6d8c6952b3268ec2fa5958a414eb01e0c1a1848d19a743707031c337d39b8b9aint, m, 0x52678053fa18f14c81e96b1197a219cea1766301d4220c90d6b6525d3ca499c3int, 0x968807a84de4e7f88a292faca874a69a11347d75d597372e295c74737acd7c93int);
    let e = lemma_leaves_square(b, e, 0x968807a84de4e7f88a292faca874a69a11347d75d597372e295c74737acd7c93int, m, 0x5883b141b6d95737f124439455d5fa0a9d4057117795ab29597d959510f6a7a4int, 0xf03172fe710fca0ba4f2725ece07429de7bc957d01837cb10ea9f570935afd85int);
    let e = lemma_leaves_next(b, e, 0xf03172fe710fca0ba4f2725ece07429de7bc957d01837cb10ea9f570935afd85int, m, 0xb4ad72f40c202e83cdf244e6430b78ba1f53698f649f885f9334bbaee05ef76cint, 0x91f1fa1a4a80c51d2d4ed3bb7d27d54d0bae777b670736e754f5413602cc0abfint);
    let e = lemma_leaves_square(b, e, 0x91f1fa1a4a80c51d2d4ed3bb7d27d54d0bae777b670736e754f5413602cc0abfint, m, 0x5334020af57183ff8953d55f5b5d14d2c06cf30e404c959eaab10ef102f727f3int, 0x67efa5954e7991e3840cec1b49153aa638921b6876eb4e40496c54a2cce8b79eint);
    let e = lemma_leaves_next(b, e, 0x67efa5954e7991e3840cec1b49153aa638921b6876eb4e40496c54a2cce8b79eint, m, 0x4e2ebdd857c7a39e498778a6f879af3a138d0d02df6a666253b614af0f656417int, 0x2a68a7bcfd2ff4a815064d3f5726f388c4fc0472d07700c804d4987f256352bbint);
    let e = lemma_leaves_square(b, e, 0x2a68a7bcfd2ff4a815064d3f5726f388c4fc0472d07700c804d4987f256352bbint, m, 0x70681d2c19012ea140b2c6bf1abcd3c9ef20c70cfba617e9606ba1f8d1a0d04int, 0x9977799f493b4353a054cdc07106597715c0ddcf116aecc7c3f053b1c3b2a255int);
    let e = lemma_leaves_square(b, e, 0x9977799f493b4353a054cdc07106597715c0ddcf116aecc7c3f053b1c3b2a255int, m, 0x5c0007230d66e90b5100d83eb3253f9bbbb1d9408d57db7c1424f9dea0554ee9int, 0x1b5eb572ffcea18b8147d6a11fd5837f8c87ad32fdfffe60643a59a3b3a30b80int);
    let e = lemma_leaves_next(b, e, 0x1b5eb572ffcea18b8147d6a11fd5837f8c87ad32fdfffe60643a59a3b3a30b80int, m, 0x149691ed1f079de75dbd96603f5375bb693c11476a1326780b62d315db20ff90int, 0x6bb00282387b39a707f2d4fc24e586f6b7b9481a37f74965a446a4a9dd3f2ff0int);
    let e = lemma_leaves_square(b, e, 0x6bb00282387b39a707f2d4fc24e586f6b7b9481a37f74965a446a4a9dd3f2ff0int, m, 0x2d4c9b1c7b9791dc8b1e30fd15fd2941f32217c337a81ff7f90cf2721797cf8fint, 0xc3f83c531944a0881ac6cf4d593f759c1d24cfacba8b88e065aa0f5690c4a9c1int);
    let e = lemma_leaves_square(b, e, 0xc3f83c531944a0881ac6cf4d593f759c1d24cfacba8b88e065aa0f5690c4a9c1int, m, 0x96041c9c1dbaacf37873afe7a6d6c101dc8a87a2057bdee1bc35c0bffe3c744eint, 0xa1e0821bb62b6081fd4475489f165ccdd6b484c6c66369111e442418ffe50d3int);
    let e = lemma_leaves_square(b, e, 0xa1e0821bb62b6081fd4475489f165ccdd6b484c6c66369111e442418ffe50d3int, m, 0x665c288b341dabdb2e98ebd9e9647277a4fd5cd8df5811130c81c581ed3aa0int, 0x91311207927e46a228d011e37c014070e8a08fca42d275483b01e51da4cfe149int);
    let e = lemma_leaves_next(b, e, 0x91311207927e46a228d011e37c014070e8a08fca42d275483b01e51da4cfe149int, m, 0x6d373b18de99069d5df1db14df6b1ae16df1b1c26bc7253664562e4eb655e6d1int, 0xe2f5a9f7bb555ba89e03ecc254c7b1552dc9741089f4ea5a88a6d9cb01b9cdc6int);
    let e = lemma_leaves_square(b, e, 0xe2f5a9f7bb555ba89e03ecc254c7b1552dc9741089f4ea5a88a6d9cb01b9cdc6int, m, 0xc936abd8f4fef8210e56fe32d2ce4e3abe7a1031b1bdcf0aaae0e080c909ce64int, 0xcccba5d24776db84af261369007455b47e5b4c7ec8761ee8a676a2ef51f7f380int);
    let e = lemma_leaves_next(b, e, 0xcccba5d24776db84af261369007455b47e5b4c7ec8761ee8a676a2ef51f7f380int, m, 0x9a0d008526c399915b8dcc7dced263a6e7e8286076c0a6f5ba8206a9251cf10bint, 0xfd57ae180207f23634790d1fa343229e1fd36bcdc300011f1e63720308aa9905int);
    let e = lemma_leaves_square(b, e, 0xfd57ae180207f23634790d1fa343229e1fd36bcdc300011f1e63720308aa9905int, m, 0xfab66c243970274c320be2e5ce4c270810e833f448168dde7cfae4b3d4917cd1int, 0xa8111464cd358b05e44006d86eb2941a9bfa81eb96cedcc5ec6fdf3b9c3546f8int);
    let e = lemma_leaves_next(b, e, 0xa8111464cd358b05e44006d86eb2941a9bfa81eb96cedcc5ec6fdf3b9c3546f8int, m, 0x7e6c396f9e7aa6232871acec1cd18e5c7ea7bda74352ac32a8d1fdbe4f675074int, 0xf5b2046fbe151a354097e2f6c7b51d4330554c4466a4e4b794ea839f0ea67ad4int);
}

/// A power of an element, step by step.
proof fn power_256_bits_to_92_bits_4()
    ensures
        leaves(0xc0915601e1a4a1534a1b5bb0f18a5be8c8606856c8892723c90c7158d2e5baafint, 0x10f647d3a13a7cc6nat, 0x8bb0cb17096eefee801cdc53f2306102daabb5291131bdbb554aab8cf74442dint, 0xffffffff00000000ffffffffffffffffbce6faada7179e84f3b9cac2fc632551int),
{
    let (b, m) = (0xc0915601e1a4a1534a1b5bb0f18a5be8c8606856c8892723c90c7158d2e5baafint, 0xffffffff00000000ffffffffffffffffbce6faada7179e84f3b9cac2fc632551int);
    power_256_bits_to_92_bits_3();
    let e = 0x10f647d3a13a7nat;
    let e = lemma_leaves_square(b, e, 0xf5b2046fbe151a354097e2f6c7b51d4330554c4466a4e4b794ea839f0ea67ad4int, m, 0xebce3848f91aa081793eacb397ade054b6612e4517e9bb0d22e1653ee7bcfcabint, 0x362697d61305376eea32dede214452f83a55f5326f883124eb59fe41086d1675int);
    let e = lemma_leaves_next(b, e, 0x362697d61305376eea32dede214452f83a55f5326f883124eb59fe41086d1675int, m, 0x28bbafee14239ffba40ecae9e1dfd050a38103a0528ab8fb848500205f495115int, 0xce37944ad8e4f9b402b7270cce53be3fae0eeb8264dce7555d19b0b44f82ab56int);
    let e = lemma_leaves_square(b, e, 0xce37944ad8e4f9b402b7270cce53be3fae0eeb8264dce7555d19b0b44f82ab56int, m, 0xa61d7eba293dd3a55fb3f3d971d88455dc18f9b9e5a06e619cde2fbde82c7630int, 0x4c368fe81afecb6a3561ae1efdc53b35695717e59f04e1c961018dd3b24dabb4int);
    let e = lemma_leaves_next(b, e, 0x4c368fe81afecb6a3561ae1efdc53b35695717e59f04e1c961018dd3b24dabb4int, m, 0x39543070b3c613c159a4a37888fa9aeaac3fc2c9c7d7a379f7209ab6da0b3130int, 0xa38b4a033134eb9cbf902167fbc6f02a2a8e9991eaa26c0e03a994f9b0a6a7dcint);
    let e = lemma_leaves_square(b, e, 0xa38b4a033134eb9cbf902167fbc6f02a2a8e9991eaa26c0e03a994f9b0a6a7dcint, m, 0x687aac09ee015807c699ae9aecb02374afed08c3bfa77504721ffc63e5ed3150int, 0x29cfd56ce2aed7486e8d382386a60b6390cb128b7a154b81f29d4b88c5439ac0int);
    let e = lemma_leaves_square(b, e, 0x29cfd56ce2aed7486e8d382386a60b6390cb128b7a154b81f29d4b88c5439ac0int, m, 0x6d43b17bf75325411aa5432020eeb5aca226cea359005c669228f09e937ea83int, 0xe6a34f5613b132301189e1dbf381a0362a67a716cebedf6a99e8086f59cc6d8dint);
    let e = lemma_leaves_square(b, e, 0xe6a34f5613b132301189e1dbf381a0362a67a716cebedf6a99e8086f59cc6d8dint, m, 0xcfc9dabd9b5f91a9addaf9915f1372fe46421e65282cb25b92f252859c998ac0int, 0xf5b3579e21f24c8d3411243a3e8caedd60a953f9e5e4aea5922cd2526bb6b8e9int);
    let e = lemma_leaves_next(b, e, 0xf5b3579e21f24c8d3411243a3e8caedd60a953f9e5e4aea5922cd2526bb6b8e9int, m, 0xb8d1fed8008c0b3fe9eecab2233422b4ae722f164c0d521c16342f391e7da658int, 0xb9c8e161f4ca0521a73afb4f90f204cf604195a72591f1507b6224542bda576fint);
    let e = lemma_leaves_square(b, e, 0xb9c8e161f4ca0521a73afb4f90f204cf604195a72591f1507b6224542bda576fint, m, 0x86d3f3610a1bc039b3bf1ce4fde69df50ca18322bec1ecfa0bd18cad3e3dc214int, 0xd9dd559f1585ee92d2afeb110c6301a8b3d62d1e151f84aab914678af49555cdint);
    let e = lemma_leaves_next(b, e, 0xd9dd559f1585ee92d2afeb110c6301a8b3d62d1e151f84aab914678af49555cdint, m, 0xa3e1afc767c9bdc1d74227fea6ee1e6ffb842ef466d66bed2c3e874fd3528e92int, 0x643e854b12936b2e5cf88a62175d931d84ad0358c81d512915216d6bf69d62f1int);
    let e = lemma_leaves_square(b, e, 0x643e854b12936b2e5cf88a62175d931d84ad0358c81d512915216d6bf69d62f1int, m, 0x2740e767a38829dcb07680b0394f47d8d77a35255d0a5750008b23bbda955bc8int, 0x51a46b4895781dfea5628c08c48793d735c66bf147d28c27776269ac8ff97499int);
    let e = lemma_leaves_square(b, e, 0x51a46b4895781dfea5628c08c48793d735c66bf147d28c27776269ac8ff97499int, m, 0x1a09757daa94bbe5f760520d3ba6bacd33d51214a270eb32bbce1276f40892e0int, 0xafa6ae64deacb6bb57a6d9499263ced5cb04daf22365778d059aec61342c2a91int);
    let e = lemma_leaves_square(b, e, 0xafa6ae64deacb6bb57a6d9499263ced5cb04daf22365778d059aec61342c2a91int, m, 0x78854ef502937f3727df68accac60ef253f02902fa58fb121aacfebd25d4e4ceint, 0x124064a9d011d999aace1269ad4fe854b919d673a1fd0df1325a7fcf8fd3baf3int);
    let e = lemma_leaves_square(b, e, 0x124064a9d011d999aace1269ad4fe854b919d673a1fd0df1325a7fcf8fd3baf3int, m, 0x14d1e5a5f0cc51319486585a2d5d1190276393f21554375adf0ef000c53547bint, 0xed0245dbf42204a242ee4562dc63c9bfb2aea75d905aae0220f0298e7df380beint);
    let e = lemma_leaves_next(b, e, 0xed0245dbf42204a242ee4562dc63c9bfb2aea75d905aae0220f0298e7df380beint, m, 0xb248424fbc58a1235a9dc5fb124d2c6f9763a313685b3b5365034352b6332c6dint, 0xfc44da4a17cfbe478f03b4d92455a377d960d4d69f5afc0a27e1b60885313e65int);
    let e = lemma_leaves_square(b, e, 0xfc44da4a17cfbe478f03b4d92455a377d960d4d69f5afc0a27e1b60885313e65int, m, 0xf897a04788f78b401e560eb3474308f8b1b79f836802bdd567ed797d5b09b507int, 0xd48222f721a67bf26310c2effbbbaff12c471da14a5f74de5d95af89c8edc9a2int);
    let e = lemma_leaves_next(b, e, 0xd48222f721a67bf26310c2effbbbaff12c471da14a5f74de5d95af89c8edc9a2int, m, 0x9fda3f550ea15de0133fae4ac15ec9c25301190d9bd2cc8323d2cd0ea5ff7100int, 0x13d061a59249a8e3c1b518610f2fb39112da90d40a88cf92ec2172543ccec8beint);
    let e = lemma_leaves_square(b, e, 0x13d061a59249a8e3c1b518610f2fb39112da90d40a88cf92ec2172543ccec8beint, m, 0x188981d678c22d35f679ad47802f6c18d870105ce5bef5695fca0d038a281a7int, 0x8bb0cb17096eefee801cdc53f2306102daabb5291131bdbb554aab8cf74442dint);
}

/// A power of an element, step by step.
proof fn power_256_bits_to_92_bits_5()
    ensures
        leaves(0xc0915601e1a4a1534a1b5bb0f18a5be8c8606856c8892723c90c7158d2e5baafint, 0x10f647d3a13a7cc6f65nat, 0x4472e0e224f159f53853254fe5735042b80e3878f4df477ed226d5a17eacb171int, 0xffffffff00000000ffffffffffffffffbce6faada7179e84f3b9cac2fc632551int),
{
    let (b, m) = (0xc0915601e1a4a1534a1b5bb0f18a5be8c8606856c8892723c90c7158d2e5baafint, 0xffffffff00000000ffffffffffffffffbce6faada7179e84f3b9cac2fc632551int);
    power_256_bits_to_92_bits_4();
    let e = 0x10f647d3a13a7cc6nat;
    let e = lemma_leaves_square(b, e, 0x8bb0cb17096eefee801cdc53f2306102daabb5291131bdbb554aab8cf74442dint, m, 0x4c3976a3314272c26ee4d40bfb83f809f4df8ba751c8b39fc9178e89727413int, 0x763ea1d81bccd7be28e35e2ef12f91e699d06612c40595993bd12bdc019976e6int);
    let e = lemma_leaves_next(b, e, 0x763ea1d81bccd7be28e35e2ef12f91e699d06612c40595993bd12bdc019976e6int, m, 0x58f21a960209cd7be1f114eeaebf5fd45f32eaf9756864fad54ecd8a518377c8int, 0x98fbb1449bc1222c4e242cc54086927d60706c07eb24ada895f0ff92a2c894f2int);
    let e = lemma_leaves_square(b, e, 0x98fbb1449bc1222c4e242cc54086927d60706c07eb24ada895f0ff92a2c894f2int, m, 0x5b6bd9f6ebaa91085e89c3d9356981dc5f01cfd4f96f6a981614ac62f138f243int, 0x30922e612a2f22867daadd15b172ef53979075ec54efc86835ded54226d75e91int);
    let e = lemma_leaves_next(b, e, 0x30922e612a2f22867daadd15b172ef53979075ec54efc86835ded54226d75e91int, m, 0x248935e6c02bfe0fe0ca7749aaca279327ffc38a6cd547cbc7cf1b14e78679f6int, 0x9374a45be834b8c4c83412c14bc3e8cd0ef52dc02c7423460b87bcf48e54da49int);
    let e = lemma_leaves_square(b, e, 0x9374a45be834b8c4c83412c14bc3e8cd0ef52dc02c7423460b87bcf48e54da49int, m, 0x54ef29e73e6c0862ce95315fd990fc9678ede851afad4d8fd3aa9e91b7cbcf28int, 0x37ac16f53ca23846d7a7f4226c443e94062826d16421c7ac957d15b8dd231529int);
    let e = lemma_leaves_next(b, e, 0x37ac16f53ca23846d7a7f4226c443e94062826d16421c7ac957d15b8dd231529int, m, 0x29e0ac6550b635517afc74a17bf22e10dc3249dea13f237848e23b731b96e80aint, 0x9963cac218858e027431aa3066c1d5ab2a922e72e901f8419ddabb1e19e163ddint);
    let e = lemma_leaves_square(b, e, 0x9963cac218858e027431aa3066c1d5ab2a922e72e901f8419ddabb1e19e163ddint, m, 0x5be86f42cfedec2929af2421a4fb7b4119834b219bf7286108639f79da1b44d7int, 0xc4d51f0b962a0e1b42a86cc6f70d7cf2fafcdf143c579e2833fafe6ca4b5d1c2int);
    let e = lemma_leaves_next(b, e, 0xc4d51f0b962a0e1b42a86cc6f70d7cf2fafcdf143c579e2833fafe6ca4b5d1c2int, m, 0x940f9620e50016df9c47f1b5f3ec16dc06e1ab0de7cb106cf9c2be865003774bint, 0xd255f66f2485f329719f4ad5489b7bd264459614d156547fcd1973abb1e3c1e3int);
    let e = lemma_leaves_square(b, e, 0xd255f66f2485f329719f4ad5489b7bd264459614d156547fcd1973abb1e3c1e3int, m, 0xacd1252c97c4f38183950fab6c82c80902cde26daac01c72b86e8d0b5fbad3faint, 0x5f6d34766524fc1c78475e510889a13f42b462146ad6da5fa6e89931f4fbdb2fint);
    let e = lemma_leaves_square(b, e, 0x5f6d34766524fc1c78475e510889a13f42b462146ad6da5fa6e89931f4fbdb2fint, m, 0x23923b85ba361ff9d4a1789cc710d62488db4bbdd4727b3b4a733c6bf9bc07daint, 0x602b192da3a2074a297a0d0e03215c8dc7b8f174ec03cf05e106cbaf4ee474a7int);
    let e = lemma_leaves_next(b, e, 0x602b192da3a2074a297a0d0e03215c8dc7b8f174ec03cf05e106cbaf4ee474a7int, m, 0x4856eb9af54e475621dd2b0eaf37772217de02975f64bfb353bc3647a02cdef6int, 0x2fadcbfc49baa2966cf0ce51ffec39cc0f94b858c52e8142b58bb08db6c1fa53int);
    let e = lemma_leaves_square(b, e, 0x2fadcbfc49baa2966cf0ce51ffec39cc0f94b858c52e8142b58bb08db6c1fa53int, m, 0x8e146e401798a662e6e8e71f90841b685f8d8f9a01c320d451938dfdff2e079int, 0x5a5b36dd1c12dc17c95ed11081be5e905b6eb86885e8c8e371a1a28d88d6b3a0int);
    let e = lemma_leaves_next(b, e, 0x5a5b36dd1c12dc17c95ed11081be5e905b6eb86885e8c8e371a1a28d88d6b3a0int, m, 0x43f7b52b7ab085cf67ca4397ce0474e38626dd9d490e2550bb6b31ae2444f241int, 0x5fc19224908cfac9070673b23d18b8e9e6ebcef35a4be021668732d95b6ffecfint);
    let e = lemma_leaves_square(b, e, 0x5fc19224908cfac9070673b23d18b8e9e6ebcef35a4be021668732d95b6ffecfint, m, 0x23d13cd4f5a98da1ef7e6eb8752962380cf801b4707337cc1b2af46a1b0a4a62int, 0xfdff19aab16830df32b3fd9c61ca47072ca9cfadd45137c56d80b321d839b85fint);
    let e = lemma_leaves_square(b, e, 0xfdff19aab16830df32b3fd9c61ca47072ca9cfadd45137c56d80b321d839b85fint, m, 0xfc0236f0834a5d908104aacd35eed9f335123352cd1b82c98c70a5c81b808ffcint, 0x7763aea244c774b4d88953a72f20c4a06bb5730e4702621a192250ebe825b885int);
    let e = lemma_leaves_square(b, e, 0x7763aea244c774b4d88953a72f20c4a06bb5730e4702621a192250ebe825b885int, m, 0x37add32b9c41704a0b52dfbe051b7b2ffc6351a532627b446b725767050e9949int, 0x71ee80ae046820bb03bab55b78a990228b2fc6778ed6815f7206a5ff12706800int);
    let e = lemma_leaves_next(b, e, 0x71ee80ae046820bb03bab55b78a990228b2fc6778ed6815f7206a5ff12706800int, m, 0x55b38ee0b127003f992a28f29f3cd1fa6bdafa06b1ced28b8cf1c77a8ae8a3c4int, 0x65109dd9c8bdab308fe64f7c93573a3853c15b31377f7476cc5ff1127653f2fcint);
    let e = lemma_leaves_square(b, e, 0x65109dd9c8bdab308fe64f7c93573a3853c15b31377f7476cc5ff1127653f2fcint, m, 0x27e61da21cd9b7ea3f8002a0e97357312e6e7a4a2ac39596217a17efbe18d59bint, 0xd72270b67efba8248a0c340076f48b29f53ff9a71abd88923db6c64dda5d6b05int);
    let e = lemma_leaves_square(b, e, 0xd72270b67efba8248a0c340076f48b29f53ff9a71abd88923db6c64dda5d6b05int, m, 0xb4caddf5602f7e6fb4e988b7017d6f419aaa3c37551c1b13ed60ff87ce2e008bint, 0x41d626ffd108ecaa09b9c35d41a4633c0cd492ec874ea54ba346c2ef85fbeb1eint);
    let e = lemma_leaves_next(b, e, 0x41d626ffd108ecaa09b9c35d41a4633c0cd492ec874ea54ba346c2ef85fbeb1eint, m, 0x3185fdaa9229bb65b167d7f84c7a66ce515c954e6a8e88a93c03fe9c2d9412c1int, 0x4472e0e224f159f53853254fe5735042b80e3878f4df477ed226d5a17eacb171int);
}

/// A power of an element, step by step.
proof fn power_256_bits_to_92_bits_6()
    ensures
        leaves(0xc0915601e1a4a1534a1b5bb0f18a5be8c8606856c8892723c90c7158d2e5baafint, 0x10f647d3a13a7cc6f65546nat, 0x2847d31b544c4a79bd809b44c74f2559101ee44e24350e9d4093017a45641beaint, 0xffffffff00000000ffffffffffffffffbce6faada7179e84f3b9cac2fc632551int),
{
    let (b, m) = (0xc0915601e1a4a1534a1b5bb0f18a5be8c8606856c8892723c90c7158d2e5baafint, 0xffffffff00000000ffffffffffffffffbce6faada7179e84f3b9cac2fc632551int);
    power_256_bits_to_92_bits_5();
    let e = 0x10f647d3a13a7cc6f65nat;
    let e = lemma_leaves_square(b, e, 0x4472e0e224f159f53853254fe5735042b80e3878f4df477ed226d5a17eacb171int, m, 0x124d3b0544e2e22f33ccb96a0739024615ec21466bc7780d48c2ab006ed7c305int, 0x9f7669ebbc5dfa34c57fa4e998123c05c78ae665d50f448d612084f08e72064cint);
    let e = lemma_leaves_square(b, e, 0x9f7669ebbc5dfa34c57fa4e998123c05c78ae665d50f448d612084f08e72064cint, m, 0x63544e590875eb61517f0e7109de739d87b5ce4b454baa754f33b50feec67e5fint, 0xb6666de98aa11298546931954b947e49c3c911c67ef95447d806d3924c08ef81int);
    let e = lemma_leaves_next(b, e, 0xb6666de98aa11298546931954b947e49c3c911c67ef95447d806d3924c08ef81int, m, 0x89345fbbb28ce88f076679e2ae2639f14392ae75569fc118ce369cc5697fabb1int, 0x67a1d8ebf5fed6bc79cc3654227a5f0020b26722538efa3ea03227d511db8b2eint);
    let e = lemma_leaves_square(b, e, 0x67a1d8ebf5fed6bc79cc3654227a5f0020b26722538efa3ea03227d511db8b2eint, m, 0x29f3a2e09a8126d1cc3f1ac9072bba980d08960a8c9fe57aca383652e04129deint, 0x1810a13095788b6336838fd5cadad05b1e1b5d336c0c4e7270ab94076fd9a706int);
    let e = lemma_leaves_square(b, e, 0x1810a13095788b6336838fd5cadad05b1e1b5d336c0c4e7270ab94076fd9a706int, m, 0x2431f4da9da8dbbb20384a27b895711016750c59325848c9e16f167594c2b3fint, 0x4fede51bca339f2b7e8db1967a2014ef7b07e532699e6599198439d7c86e0a35int);
    let e = lemma_leaves_next(b, e, 0x4fede51bca339f2b7e8db1967a2014ef7b07e532699e6599198439d7c86e0a35int, m, 0x3c1fcc6e59dcc337d6d61f0140bb32e0ff4251974973918abe83e137823ab973int, 0x4c05ca9501245bfb0ab00a9e62c072dfcbf1b47a4e2ada448bcb0d5cf5312fd8int);
    let e = lemma_leaves_square(b, e, 0x4c05ca9501245bfb0ab00a9e62c072dfcbf1b47a4e2ada448bcb0d5cf5312fd8int, m, 0x1693706a19628efa5e729cb8f14d4f0df66ecc48eb48ce24665b10223a3d3134int, 0x7028097c281a686aed77bcecb8d79fac9ff285c244dd8f54c52161864d0bf0ccint);
    let e = lemma_leaves_square(b, e, 0x7028097c281a686aed77bcecb8d79fac9ff285c244dd8f54c52161864d0bf0ccint, m, 0x31230e8fcb60a93686a5850428c7aa3001cec675514969ac66a0548b82be7f39int, 0x6d87c01a052b2c1d999d3ae36b505fe29315751bb43b1e15bd387ad61652a487int);
    let e = lemma_leaves_next(b, e, 0x6d87c01a052b2c1d999d3ae36b505fe29315751bb43b1e15bd387ad61652a487int, m, 0x5263fec40d9c8af862ee715784ed72d12e9b344ee0bb3767e27a264b12ad616aint, 0x87a51809143a9157f0ccc1837dc1c6be3d2128e68c945300bf941a243cdd69bfint);
    let e = lemma_leaves_square(b, e, 0x87a51809143a9157f0ccc1837dc1c6be3d2128e68c945300bf941a243cdd69bfint, m, 0x47df89d1d92b16b91597d2629d3b51e5592fbeec4b3cbee001cee8ce4cbb5b50int, 0xf2b184c70772fc1b20a31644bf826b517dec321edd05e4c4eecb2b74dc09c831int);
    let e = lemma_leaves_square(b, e, 0xf2b184c70772fc1b20a31644bf826b517dec321edd05e4c4eecb2b74dc09c831int, m, 0xe6141a22103fa6303a5a6cf0d7f917f82038e78fe7bfe369b26281731e498502int, 0x74d0e5132bf96557b668f7dd4a5c4824299698a6fc5bd6bdfea2a52e4abc39bfint);
    let e = lemma_leaves_square(b, e, 0x74d0e5132bf96557b668f7dd4a5c4824299698a6fc5bd6bdfea2a52e4abc39bfint, m, 0x354dfa0ea14ac14655b604c9aa74dc2e5a4b14b369d84a3fe973527c3c653e63int, 0x68877e5411623614968693479116903514542384d2db4f8e3d3bdacaf738902eint);
    let e = lemma_leaves_square(b, e, 0x68877e5411623614968693479116903514542384d2db4f8e3d3bdacaf738902eint, m, 0x2aae5e5af3cf5c98a4030a629c09f24b9034ab1eae5861d5bc98102eebbf92b5int, 0xe0a78d537b201ed5d59bd141113991c4229ad56a451e3b8e0d5d6dbaf98333ffint);
    let e = lemma_leaves_next(b, e, 0xe0a78d537b201ed5d59bd141113991c4229ad56a451e3b8e0d5d6dbaf98333ffint, m, 0xa8fd346041c35d811583d71604c19d7169e4c9d0c94232cb8464b7c68deb37e4int, 0x8c31785734ed18c44ae8380604491908d93e27c987674c38f57f95ada1e62e2dint);
    let e = lemma_leaves_square(b, e, 0x8c31785734ed18c44ae8380604491908d93e27c987674c38f57f95ada1e62e2dint, m, 0x4cc6252ef89d9a5c243a28a46d3c4b09922b92a180255f3586cf811068ccccb9int, 0xcc1b8c78f3d329639a24991b7983779ebd36bd739a04d41ed4a4ab9b9141b060int);
    let e = lemma_leaves_next(b, e, 0xcc1b8c78f3d329639a24991b7983779ebd36bd739a04d41ed4a4ab9b9141b060int, m, 0x99888988a21caa4b1879af513e1ad1cfcd4ad0b4e5f0a4148b6801463d5642b2int, 0x29d9b1cdb7a255f12d1ffe33dd1ced6eb465cb2891e376c0373cfb55a9287d4eint);
    let e = lemma_leaves_square(b, e, 0x29d9b1cdb7a255f12d1ffe33dd1ced6eb465cb2891e376c0373cfb55a9287d4eint, m, 0x6d77412d5e8e20ddaf2d01cc925c91228de55d63889f3498c373064fdb09bbaint, 0x2847d31b544c4a79bd809b44c74f2559101ee44e24350e9d4093017a45641beaint);
}

/// A power of an element, step by step.
proof fn power_256_bits_to_92_bits_7()
    ensures
        leaves(0xc0915601e1a4a1534a1b5bb0f18a5be8c8606856c8892723c90c7158d2e5baafint, 0x87b23e9d09d3e637b2aa341nat, 0x1int, 0xffffffff00000000ffffffffffffffffbce6faada7179e84f3b9cac2fc632551int),
{
    let (b, m) = (0xc0915601e1a4a1534a1b5bb0f18a5be8c8606856c8892723c90c7158d2e5baafint, 0xffffffff00000000ffffffffffffffffbce6faada7179e84f3b9cac2fc632551int);
    power_256_bits_to_92_bits_6();
    let e = 0x10f647d3a13a7cc6f65546nat;
    let e = lemma_leaves_square(b, e, 0x2847d31b544c4a79bd809b44c74f2559101ee44e24350e9d4093017a45641beaint, m, 0x656861f57ed2f9752f482ffc4da43bddf8245e27ee68b6a4a74d59da801048fint, 0xa6e6cf9a9c9887cd6212496eaed507864ffbb308a9ae3831a747e9d0209315a5int);
    let e = lemma_leaves_next(b, e, 0xa6e6cf9a9c9887cd6212496eaed507864ffbb308a9ae3831a747e9d0209315a5int, m, 0x7d8bdc82cd51e67877444ef4ffa88e905eeb4994e54861d8e5ba933dc863ffcbint, 0x6bc746b8de1d774817bf9cc7fd3960bd4c76b61d5f5c69607400a52c3dc16790int);
    let e = lemma_leaves_square(b, e, 0x6bc746b8de1d774817bf9cc7fd3960bd4c76b61d5f5c69607400a52c3dc16790int, m, 0x2d60303dbdffc2bb6edcae56d1bf1f5b589ebdfeaa6b84670f19c3a3713e0d41int, 0xdd13647c7942fc7cdcfa747ea78c3629f6715f4119a73a9dfe513b9608559a6fint);
    let e = lemma_leaves_square(b, e, 0xdd13647c7942fc7cdcfa747ea78c3629f6715f4119a73a9dfe513b9608559a6fint, m, 0xbeea7cf7ba33a01a12f0e74140c2cc4b6a2612666acb011e0e4f1eb5ab45e363int, 0x90b920ff319c35eec6584ea111ff3a19443eb94c24b92aee50c32a3c2c9c7aceint);
    let e = lemma_leaves_square(b, e, 0x90b920ff319c35eec6584ea111ff3a19443eb94c24b92aee50c32a3c2c9c7aceint, m, 0x51d0cb001eb7063d4b708e906ba5dc82b78d7502971f88dc08a31052ea5367caint, 0x4cea6b085f800dadd6318faa86c525c84eb9462ab1250b46c17c68d28876f4daint);
    let e = lemma_leaves_square(b, e, 0x4cea6b085f800dadd6318faa86c525c84eb9462ab1250b46c17c68d28876f4daint, m, 0x171c0634e7dea48830cc145ab16c7df836dc374a681ff8f6aa68b8691e98b5c9int, 0xb2be2c2eca3b79dd63f707966af89aa3aeb46e8249a3fa9c090f621559d5b80bint);
    let e = lemma_leaves_square(b, e, 0xb2be2c2eca3b79dd63f707966af89aa3aeb46e8249a3fa9c090f621559d5b80bint, m, 0x7ccd02b72b1c068930f8bd1e151899463a1db690cbabfa6e42390f3d2af3e2dfint, 0xe3677be592ed7d2b3ae08a74adfb43c3e8f1c82632d8c699e89aadff556bcceaint);
    let e = lemma_leaves_square(b, e, 0xe3677be592ed7d2b3ae08a74adfb43c3e8f1c82632d8c699e89aadff556bcceaint, m, 0xca00af8edb447fb3dbf49f60c049ee73555aaa7335f25753815dce8302f0ff03int, 0x873753a57be30c001d3f4191247ae4a70b9bb616cf9ffde0cea3fe43fe5ca6f1int);
    let e = lemma_leaves_next(b, e, 0x873753a57be30c001d3f4191247ae4a70b9bb616cf9ffde0cea3fe43fe5ca6f1int, m, 0x65b6428077db378987a59adff32fb92d41f902a1b395b5f93a485aa69398f55eint, 0x1int);
}

/// A prime of 256 bits.
pub proof fn lemma_prime_256_bits()
    ensures
        prime(0xffffffff00000000ffffffffffffffffbce6faada7179e84f3b9cac2fc632551int),
{
    crate::primes::small::lemma_prime_1002328039319();
    lemma_prime_92_bits();
    power_256_bits_to_1002328039319_3();
    lemma_of_prime_order(
        0xa7a419086c4d06e3581581fc8cea9fd97004e8cbd03ae8c54ff7837cceee9919int,
        0xe95f681f97int,
        0x154af5d0cc57479fbc9811f668d2d15a1df4a0b040822adf2503fef7b3e6719eint,
        0xffffffff00000000ffffffffffffffffbce6faada7179e84f3b9cac2fc632551int,
        0xdf18c75c25c7e666410815983dfe96b7d72c7871b9d30e67114542a1337901fint,
    );
    power_256_bits_to_92_bits_7();
    lemma_of_prime_order(
        0xc0915601e1a4a1534a1b5bb0f18a5be8c8606856c8892723c90c7158d2e5baafint,
        0x87b23e9d09d3e637b2aa341int,
        0x72ca5f0d48545c9059c0d962203775545c6248bf5ec7809bba828ec3264e8033int,
        0xffffffff00000000ffffffffffffffffbce6faada7179e84f3b9cac2fc632551int,
        0x5658f27af704b48f20df8130d6d5e1616f124512bc9c2ac4ada8778ea6a3dfd9int,
    );
    lemma_prime_by_two(
        0xffffffff00000000ffffffffffffffffbce6faada7179e84f3b9cac2fc632551int,
        0xa7a419086c4d06e3581581fc8cea9fd97004e8cbd03ae8c54ff7837cceee9919int,
        0xe95f681f97int,
        0x154af5d0cc57479fbc9811f668d2d15a1df4a0b040822adf2503fef7b3e6719eint,
        0xc0915601e1a4a1534a1b5bb0f18a5be8c8606856c8892723c90c7158d2e5baafint,
        0x87b23e9d09d3e637b2aa341int,
        0x72ca5f0d48545c9059c0d962203775545c6248bf5ec7809bba828ec3264e8033int,
    );
}

} // verus!
