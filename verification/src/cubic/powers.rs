//! The power `p` of a root of the cubic. Powers are built by squaring and
//! multiplying; every step gives its quotients and its remainders.
use crate::cubic::{
    lemma_no_common_root, lemma_reduces_first, lemma_reduces_next, lemma_reduces_square, reduces,
    root,
};
use crate::curve::field_p;
use vstd::prelude::*;

verus! {

/// A power of a root, step by step.
proof fn power_0(r: int)
    requires
        root(r),
    ensures
        reduces(
            r,
            0x1ffnat,
            0x8eb968564e1ce3b0cc43649e3665d8bd7c513f48ee028c74aaa1b228460fccc3int,
            0xe4399ab42e24ec29a63e4d3366cdf9afe685a1b794baebfd1519abfe55a01e92int,
            0xfaf1759697975cb26ce946313edc7a2667d6079aade7008dcef6d6f04481dcf6int,
        ),
{
    let (p, b) = (
        0xffffffff00000001000000000000000000000000ffffffffffffffffffffffffint,
        0x5ac635d8aa3a93e7b3ebbd55769886bc651d06b0cc53b0f63bce3c3e27d2604bint,
    );
    lemma_reduces_first(r);
    let e = 1nat;
    let e = lemma_reduces_square(
        r,
        e,
        p,
        b,
        0x0int,
        0x1int,
        0x0int,
        0x0int,
        0x0int,
        0x0int,
        0x0int,
        0x0int,
        0x1int,
    );
    let e = lemma_reduces_next(
        r,
        e,
        p,
        b,
        0x0int,
        0x0int,
        0x1int,
        -0x1int,
        0xa539ca2655c56c194c1442aa896779439ae2f95033ac4f09c431c3c1d82d9fb4int,
        0x0int,
        0x3int,
    );
    let e = lemma_reduces_square(
        r,
        e,
        p,
        b,
        0xa539ca2655c56c194c1442aa896779439ae2f95033ac4f09c431c3c1d82d9fb4int,
        0x3int,
        0x0int,
        0x6aa38ba179e6bffcf089e8ebe4068cf113de052ec360bffb356b7b896cb00253int,
        0x780e30db8d0bff9f35db5c169c4154566f784ac6c9f292c324f78692b59918e3int,
        0x3int,
        0xdf5abce902a08894c8798fff386cd795a151d7de3609da3a992a968b1111be3bint,
        0x0int,
        0x9int,
    );
    let e = lemma_reduces_next(
        r,
        e,
        p,
        b,
        0x780e30db8d0bff9f35db5c169c4154566f784ac6c9f292c324f78692b59918e3int,
        0xdf5abce902a08894c8798fff386cd795a151d7de3609da3a992a968b1111be3bint,
        0x9int,
        -0x4int,
        0xcf081b5e03f0ccdeacb657fed4a3436071fac3ccd10ec757e5bfe1d0999a9d59int,
        0x0int,
        0x780e30db8d0bff9f35db5c169c4154566f784ac6c9f292c324f78692b59918feint,
    );
    let e = lemma_reduces_square(
        r,
        e,
        p,
        b,
        0xcf081b5e03f0ccdeacb657fed4a3436071fac3ccd10ec757e5bfe1d0999a9d59int,
        0x780e30db8d0bff9f35db5c169c4154566f784ac6c9f292c324f78692b59918feint,
        0xdf5abce902a08894c8798fff386cd795a151d7de3609da3a992a968b1111be3bint,
        -0x4a4870043a6e3bd2f6c5e78a2e5eafa23cc6b65911630078bcc77a7130c3488b28831d29769bca40f3270480dad4917bf1a287aa0140725a78c59454b25ceb2eint,
        0x92353da7e91503d3c42f88f3de749ac8f8fb87845d079ef21bce0036251288e7int,
        -0x45195a5bb0f77f586a6d4377acdd7989fef598f55b9a5f7e5956826c4605107deb512f02ac291f5cbec9c465d29c21139f0fe07a11fb29b174b24ffe156c9756int,
        0x903c4e5a179f3d526b16458f5b6495dbbdc1e907547ef3165710f51b38d444afint,
        0x3ea2dd15ee75d4c6f885d465a628e7959e863646c43da53bc8aadc7063a02a258int,
        0x2c9d06d9931466906eb3b1f205d3cc551e2d4cd03b31e8805fbf1b93444ac62dint,
    );
    let e = lemma_reduces_next(
        r,
        e,
        p,
        b,
        0x92353da7e91503d3c42f88f3de749ac8f8fb87845d079ef21bce0036251288e7int,
        0x903c4e5a179f3d526b16458f5b6495dbbdc1e907547ef3165710f51b38d444afint,
        0x2c9d06d9931466906eb3b1f205d3cc551e2d4cd03b31e8805fbf1b93444ac62dint,
        -0xfd1bf3e1e61fc021095568917dd9b8148bfaf5c8bf4ad02eca283dbff8ad26cint,
        0x50900bd51d5992dc08b2d5d048c02e84d9052042dca9a8bf660f39f588523e65int,
        0x1int,
        0x180c5235a2523784104a9ec9efefffc853836df40e9d58733b0b52eff1f2db6fint,
    );
    let e = lemma_reduces_square(
        r,
        e,
        p,
        b,
        0x50900bd51d5992dc08b2d5d048c02e84d9052042dca9a8bf660f39f588523e65int,
        0x180c5235a2523784104a9ec9efefffc853836df40e9d58733b0b52eff1f2db6fint,
        0x903c4e5a179f3d526b16458f5b6495dbbdc1e907547ef3165710f51b38d444afint,
        -0x99bd6676c26afc99a8e1ae0fe0ea5831473ff74c68581f41254762b261513e41cfa25b86993daaaf734c6853245f1f8af6ae21c3be5c2e0163a7477e1f73a21int,
        0x1477eccf1132934c715b25c5d017f22ed635bfafddd493c6eb562b476d75ede2int,
        -0x1cd0ca97d052e49a4b67187e230a189a0f25788804512f087faa233d9af818c743d4c03edf2c5fed900ba7313e74b8f423ea2fdec2371230cd3416693da5df94int,
        0x5dd43d896c052496dceef4416a56fc93f011b8cf495772ce5a49c7acb973e31dint,
        0x150d605377d559a55e50b5e91fc657804ef7f48e8e7dc91b42005c1b995503dceint,
        0xd0da663f8852ab95f0427be5cf72bf55022873c640609f79a1c4ae5cf2f29ce8int,
    );
    let e = lemma_reduces_next(
        r,
        e,
        p,
        b,
        0x1477eccf1132934c715b25c5d017f22ed635bfafddd493c6eb562b476d75ede2int,
        0x5dd43d896c052496dceef4416a56fc93f011b8cf495772ce5a49c7acb973e31dint,
        0xd0da663f8852ab95f0427be5cf72bf55022873c640609f79a1c4ae5cf2f29ce8int,
        -0x4a0e7ccbaf713beec0965317579b68f38fa2ea1de837bc639dbe11000ead7422int,
        0x3d81e20a7855d1d05cfaf81407d735bca30a3fdfa4bc90a19cc55d8dbb1793e6int,
        0x2int,
        0x87071f8faa2a960c422299773e70302ddcaf1b009ef67233d0a4365e464dc49cint,
    );
    let e = lemma_reduces_square(
        r,
        e,
        p,
        b,
        0x3d81e20a7855d1d05cfaf81407d735bca30a3fdfa4bc90a19cc55d8dbb1793e6int,
        0x87071f8faa2a960c422299773e70302ddcaf1b009ef67233d0a4365e464dc49cint,
        0x5dd43d896c052496dceef4416a56fc93f011b8cf495772ce5a49c7acb973e31dint,
        -0x2318e7358c835094b6552133195bc7fdf6795aef3b4ecc46171dc672b13f09777656e9044367f9bacf33b99899e9f3322887537ae09d9dbe0603059e4dc5b617int,
        0x96439668012f55dc16c4b7e8a502fdf982d284ff4725c13f1691ea8b47cf31c5int,
        -0xc31bee31ab8d1514e0851781b6954371f763dcd228321fd6d6262c4328da05797b3c86b10c427852e4034828d4b02511eec4ac7731683b6f337e3cd58775f4dint,
        0xc59c78a682b7630c12de65d218c18e4bf46b8aa92d592b75a2ea263d4f861aa8int,
        0xdb7a8c6c82c1ca664bd88dd3931d5b0a3aa4808e40d10e6d66b4b7090132bffaint,
        0x661f79ac65e7212d25f3c1f6be5331d3e68e0c24f2bc1a1d503377b0eceeb901int,
    );
    let e = lemma_reduces_next(
        r,
        e,
        p,
        b,
        0x96439668012f55dc16c4b7e8a502fdf982d284ff4725c13f1691ea8b47cf31c5int,
        0xc59c78a682b7630c12de65d218c18e4bf46b8aa92d592b75a2ea263d4f861aa8int,
        0x661f79ac65e7212d25f3c1f6be5331d3e68e0c24f2bc1a1d503377b0eceeb901int,
        -0x24362299ce07d48494bc7d8fc36c5e6ce074617f57bf13286e7b99428234f421int,
        0x9f9ec0667a4de7ab65b5a13c58e045f800fe02ff6af0ea6335838cda4a87894int,
        0x1int,
        0xc8a2036e32e4b962889ffdccdffc9375367ca96d1f5a0f97072c519e0e9b5cc9int,
    );
    let e = lemma_reduces_square(
        r,
        e,
        p,
        b,
        0x9f9ec0667a4de7ab65b5a13c58e045f800fe02ff6af0ea6335838cda4a87894int,
        0xc8a2036e32e4b962889ffdccdffc9375367ca96d1f5a0f97072c519e0e9b5cc9int,
        0xc59c78a682b7630c12de65d218c18e4bf46b8aa92d592b75a2ea263d4f861aa8int,
        -0x6dd4d55dc08859bb2ab0ec1ff281e31f9111c0303e222f04ee87901cad59e5144e0f1f08551d80d96f2d6c47415d4707a0408e65df1d3ceaf9b33c308ed1d400int,
        0xe8d447021e17ba7478655a24cb5bf767ad3770d2943a3128bf6be2e5aa839ba0int,
        -0x3616b04f7119231417dd6c71bda1f9c618e69a2a4a576b957e044a1ee7af39d6f08cf8e39d022428f3f65e605fb6f7c03a997b3863bb2459880f863d83dadcefint,
        0x4a99f89a52604f5441f656d3e3c4073869d7b9e1d37e4ee248b9222ae37d0229int,
        0x27642f72263210cd5d61bcdb1984b2817d3b50f48b746ba8090fe6cef74e8f4ddint,
        0x7ab3da610c144d2a038af2a7e2a3066d3756bc0b7358a3ec373f7471a67007aeint,
    );
    let e = lemma_reduces_next(
        r,
        e,
        p,
        b,
        0xe8d447021e17ba7478655a24cb5bf767ad3770d2943a3128bf6be2e5aa839ba0int,
        0x4a99f89a52604f5441f656d3e3c4073869d7b9e1d37e4ee248b9222ae37d0229int,
        0x7ab3da610c144d2a038af2a7e2a3066d3756bc0b7358a3ec373f7471a67007aeint,
        -0x2b823bb0465e928f34a37ab865164868064eb70e3bb9d6b4f5004643bf9a76c8int,
        0x9666584bba18986cc69348a523dc2f86534878ac07d3f9ec6135c0d0abf6093eint,
        0x2int,
        0x58efd6274254a1f08306321c73450aaf533ba4f2ee441ced652a403a9dd3b2acint,
    );
    let e = lemma_reduces_square(
        r,
        e,
        p,
        b,
        0x9666584bba18986cc69348a523dc2f86534878ac07d3f9ec6135c0d0abf6093eint,
        0x58efd6274254a1f08306321c73450aaf533ba4f2ee441ced652a403a9dd3b2acint,
        0x4a99f89a52604f5441f656d3e3c4073869d7b9e1d37e4ee248b9222ae37d0229int,
        -0x12613d854e642ce528f539a7b1df6feacb0e1fcdeaf726ed1c246e18b7c53bd08a01700f3ba45240b515d9f1d611bc191348e3e48c420b300a68dfb5b2b526cfint,
        0x71728c4b266eec36ccf19e39974af81d233cb797d0a181377ffca765602f642dint,
        -0x7b568e8c8c3721823d3982cada4c8066dd6aa11d994e1d7ce62043c23e9d6f817505dba3111e8fd8ee48599481529ea7ea333ea6d292de98988bb6c1e732094int,
        0x35e279c5136ef70a1c1353485a049f2e3818e4c9dcddb5552a83dc7e76b8eb89int,
        0xb7c5fa672b72893e86401d2ab639fcf112b22fe38c5421486ed5d92493b640afint,
        0x81bd2784a6bfe2220829d62100d2c31d6ab6fad598a47c4d589c88ceed9dd1ceint,
    );
    let e = lemma_reduces_next(
        r,
        e,
        p,
        b,
        0x71728c4b266eec36ccf19e39974af81d233cb797d0a181377ffca765602f642dint,
        0x35e279c5136ef70a1c1353485a049f2e3818e4c9dcddb5552a83dc7e76b8eb89int,
        0x81bd2784a6bfe2220829d62100d2c31d6ab6fad598a47c4d589c88ceed9dd1ceint,
        -0x2e00f37b58467be4888629c36d44ebc8cc0adbf0a623fe190d136e11728953daint,
        0x9f54c95cb37635750894deddf3174509fa0d660c422c9aa7b2a7d5e34490f4ccint,
        0x1int,
        0xf6aa02da1aae929be56f209c99c341756361a8179a8ef61f89d241d22908d998int,
    );
    let e = lemma_reduces_square(
        r,
        e,
        p,
        b,
        0x9f54c95cb37635750894deddf3174509fa0d660c422c9aa7b2a7d5e34490f4ccint,
        0xf6aa02da1aae929be56f209c99c341756361a8179a8ef61f89d241d22908d998int,
        0x35e279c5136ef70a1c1353485a049f2e3818e4c9dcddb5552a83dc7e76b8eb89int,
        -0x24d1ec88d5343be7772052345e61b85d7b20922d7b97fd7afb3c2acd51311ae5b64ed2b3df259a9e35521557773f62f824272b1ad2a3cbaf52ea4b48de5c744bint,
        0x1d51835786a9085dfc9179b3189b549b5b443345f3c06a7ea676e9c6c3885eb5int,
        -0x405904d124992cc80b57cdd7679beb13ab1190eb485702a3782b9dbeefbc9351f3ecd2774478673da9075530cefa3724198043e831efd2dce9ce148334b6e9fint,
        0xfaf1759697975cb26ce946313edc7a2667d6079aade7008dcef6d6f04481dcf6int,
        0x152c4df60248e758ba70d9d83326072a44fbcd901b0fa2c7815c0a5fedcd1e814int,
        0x424d5d1ee27ea143e3399bd56f663706d915cf7b35a8d5d4cf8b96128607ea9fint,
    );
    let e = lemma_reduces_next(
        r,
        e,
        p,
        b,
        0x1d51835786a9085dfc9179b3189b549b5b443345f3c06a7ea676e9c6c3885eb5int,
        0xfaf1759697975cb26ce946313edc7a2667d6079aade7008dcef6d6f04481dcf6int,
        0x424d5d1ee27ea143e3399bd56f663706d915cf7b35a8d5d4cf8b96128607ea9fint,
        -0x178288851aaabdc6f80fa4cb1c843f106e4a48322fea59de7fbb2668ce34d6a8int,
        0x8eb968564e1ce3b0cc43649e3665d8bd7c513f48ee028c74aaa1b228460fccc3int,
        0x0int,
        0xe4399ab42e24ec29a63e4d3366cdf9afe685a1b794baebfd1519abfe55a01e92int,
    );
}

/// A power of a root, step by step.
proof fn power_1(r: int)
    requires
        root(r),
    ensures
        reduces(
            r,
            0x1ffffnat,
            0x7ed3ee8df73c2c8e96fc96bf15c4657809e4658bb8e19f9b82deebe159c1c3a5int,
            0x266695826ba3e6fa5392463bde79da6f28206762e05cdd265c0e5717fc611dc2int,
            0x3c9f1514103a72b66745126d53923542da4f706dfcd311491cf83012b8726960int,
        ),
{
    let (p, b) = (
        0xffffffff00000001000000000000000000000000ffffffffffffffffffffffffint,
        0x5ac635d8aa3a93e7b3ebbd55769886bc651d06b0cc53b0f63bce3c3e27d2604bint,
    );
    power_0(r);
    let e = 0x1ffnat;
    let e = lemma_reduces_square(
        r,
        e,
        p,
        b,
        0x8eb968564e1ce3b0cc43649e3665d8bd7c513f48ee028c74aaa1b228460fccc3int,
        0xe4399ab42e24ec29a63e4d3366cdf9afe685a1b794baebfd1519abfe55a01e92int,
        0xfaf1759697975cb26ce946313edc7a2667d6079aade7008dcef6d6f04481dcf6int,
        -0x9ea776e66cd4cb7e9e597da1eee30a4dd489d590bd92d2ca8a8483ead4a2450e33e85f9bbc49c72afc3bc5b509775ce07c9354799f7804380773ab54cfad7d99int,
        0xd920f58308b0842447c41a224ba5919094aaa4d3780aa3d57f45aa3770142268int,
        -0x5739391d9ec30ea59cd0442aff723a1aa616858999e35d77bd82647d42b60f2c050e9191bb33bddad4a5459f7b9a2a86b20a4c5002bb07121aca3b30bb98363aint,
        0x383da721ba0db13050178bf4e6aa5187bd6133af8300308cba201fb197c26caeint,
        0x4c53b7cc292c35c8bac33d7298f82db0c8bc597e246772f3f955482b61eb0791dint,
        0xdc0b0ac657368af36a87b05cb85f74fd571c31192203ac45faa4fe906b94e851int,
    );
    let e = lemma_reduces_next(
        r,
        e,
        p,
        b,
        0xd920f58308b0842447c41a224ba5919094aaa4d3780aa3d57f45aa3770142268int,
        0x383da721ba0db13050178bf4e6aa5187bd6133af8300308cba201fb197c26caeint,
        0xdc0b0ac657368af36a87b05cb85f74fd571c31192203ac45faa4fe906b94e851int,
        -0x4e06409ce2f4b7d7281723b4932c60b460d1b30ad5953d6036d896ba831130feint,
        0xc8e5ec83438931c3e770999634b472147353509bb872fc9c17cd7d7537be5f47int,
        0x3int,
        0x6d4215d90e5424fb875b2b3874c3f08899ff381bde15a8a76f34a5e8b2d2db5eint,
    );
    let e = lemma_reduces_square(
        r,
        e,
        p,
        b,
        0xc8e5ec83438931c3e770999634b472147353509bb872fc9c17cd7d7537be5f47int,
        0x6d4215d90e5424fb875b2b3874c3f08899ff381bde15a8a76f34a5e8b2d2db5eint,
        0x383da721ba0db13050178bf4e6aa5187bd6133af8300308cba201fb197c26caeint,
        -0x1105b5b3a54a3455d532469ff2ac66a86aa25297d096ec34f842d2557da170dc2439ce1fb38698a239691db096a199882408b6c9dc3611975304797238d53285int,
        0x6a5ca46ef1a4d7939c13aba3a010f9a6057b35714972c75e278a9bcc1e07f794int,
        -0x46191ce9c78eba57ceb6483ba45837ddada1e77a8199d733aa7d003ec5953b0f4633b098ec79eb500a381f47bb4678c75394317f896c8b6159ca04fa642d8aeint,
        0x8c92508480f3342e7b0b49145a6dd7a458fca98b924f1154094221caaa400ee2int,
        0xabf7caef53ad3c2231847728fb6a1a548bdc49f9cd9724351656b51ec3229c2cint,
        0x62a6920b2d6c4c0fe82636f9da2c0bbfb4fda75596d4182d66feed252bafd200int,
    );
    let e = lemma_reduces_next(
        r,
        e,
        p,
        b,
        0x6a5ca46ef1a4d7939c13aba3a010f9a6057b35714972c75e278a9bcc1e07f794int,
        0x8c92508480f3342e7b0b49145a6dd7a458fca98b924f1154094221caaa400ee2int,
        0x62a6920b2d6c4c0fe82636f9da2c0bbfb4fda75596d4182d66feed252bafd200int,
        -0x22faf0ecfff8defa7a3a1b9e61d709a004ff2a5c5a0565ce49687cf665c62d5dint,
        0x39c8cd9ef5e3c69464892155149bbe00158da4ac25368ce6f9079d8b9af74ca3int,
        0x1int,
        0x92505a9179e9bbc2548650912e951ce524742b710def0fe65c87633ba1176d95int,
    );
    let e = lemma_reduces_square(
        r,
        e,
        p,
        b,
        0x39c8cd9ef5e3c69464892155149bbe00158da4ac25368ce6f9079d8b9af74ca3int,
        0x92505a9179e9bbc2548650912e951ce524742b710def0fe65c87633ba1176d95int,
        0x8c92508480f3342e7b0b49145a6dd7a458fca98b924f1154094221caaa400ee2int,
        -0x38f9fb78e38f818ddc8a72359161b0cabb59264157ec443ff4bc2d628cbe4371ec71e407fb61aa9bf6c7bf8db34ffefa6035a929f26eb9d4576e8f9e6b1e0463int,
        0x510f2fba1007b485e16ade38cff0af73a295d3fb34e1a14b9d912c0e4c80588aint,
        -0x1b5ec3df8b25e5e166b4c13204c80a6372c7f952e46197cfe619bd7fdb4fb7e8658b689b08399e92c736b467c0fcc4a74920c523a63ae40c19aaa6d45ccc02edint,
        0xc638ef7ca725b971874e15af4c966252d94da7ac636e94f9e7c113d5932f7a61int,
        0x17aa681e4753c047d1057f019153adfb2980e13df290cc7dea6c4b6f2d97ed19dint,
        0x8a4770610c7b456560637dfdb244c8f8882c30041d2b6df6af41f311674aacaeint,
    );
    let e = lemma_reduces_next(
        r,
        e,
        p,
        b,
        0x510f2fba1007b485e16ade38cff0af73a295d3fb34e1a14b9d912c0e4c80588aint,
        0xc638ef7ca725b971874e15af4c966252d94da7ac636e94f9e7c113d5932f7a61int,
        0x8a4770610c7b456560637dfdb244c8f8882c30041d2b6df6af41f311674aacaeint,
        -0x31082dd90cf929c24f1128d2d5a28e0778310fc1517b7b3518c81427cc4d6b6fint,
        0xd3274614d8a1eb9c0f6d6e185ec0ba31dd9f331251dc26283629794ec754bd97int,
        0x1int,
        0xefe580de357984b502955831e6bf0a5d3b1a64068c63eb2fab57054282605e95int,
    );
    let e = lemma_reduces_square(
        r,
        e,
        p,
        b,
        0xd3274614d8a1eb9c0f6d6e185ec0ba31dd9f331251dc26283629794ec754bd97int,
        0xefe580de357984b502955831e6bf0a5d3b1a64068c63eb2fab57054282605e95int,
        0xc638ef7ca725b971874e15af4c966252d94da7ac636e94f9e7c113d5932f7a61int,
        -0x83bb3f5f1874a2db3f2c2dfc50352b183d7e380b026b0cfc00137fe307ae201219931430ff591aaf5725044f091ecb3a379b972d43c51bba012da96389ae4cdaint,
        0x854347a14e03b51fb447676d84ebba6d3b8f4cfd5e4332cbf60e55a28fd16da9int,
        -0x366c793997cf099ad24ae69fc5c1f172fc3493cec47b998c895f41478ed2ec1d7560cbcc0a3d5a30e990c41b55e819ed467db5980675ba1de09241097ed2c875int,
        0x104d61acdc9fafe588a1f20e24f68816f8fc0b9e36bf1eeb59ab886c6a66bf84int,
        0x3f4415e65f4c4d7147f48fcafc4021a11cfb9c439f638ff367788d406f8c6dbe9int,
        0x60d894070f3e831bcbaaa079148a3d0841db5d5778bf34a3f27bad4aea320153int,
    );
    let e = lemma_reduces_next(
        r,
        e,
        p,
        b,
        0x854347a14e03b51fb447676d84ebba6d3b8f4cfd5e4332cbf60e55a28fd16da9int,
        0x104d61acdc9fafe588a1f20e24f68816f8fc0b9e36bf1eeb59ab886c6a66bf84int,
        0x60d894070f3e831bcbaaa079148a3d0841db5d5778bf34a3f27bad4aea320153int,
        -0x22571febe8f13bcbffce342bcd5c3bde290716490743c7057adcee2ffd3b7344int,
        0x9ee5f08c3b1bd92289060a43ab1be5fc2d9e92e150d9b9d3e693b3b7ea89096bint,
        0x1int,
        0xa7cd03b77bbf3e72174748d8c28a718601216502c880d0b7cd815d834e6771a3int,
    );
    let e = lemma_reduces_square(
        r,
        e,
        p,
        b,
        0x9ee5f08c3b1bd92289060a43ab1be5fc2d9e92e150d9b9d3e693b3b7ea89096bint,
        0xa7cd03b77bbf3e72174748d8c28a718601216502c880d0b7cd815d834e6771a3int,
        0x104d61acdc9fafe588a1f20e24f68816f8fc0b9e36bf1eeb59ab886c6a66bf84int,
        -0x793f84c3c3d475a4b1fff0a2d062fbdbac8c803db5abc1727fac25ce8e0b5fcde1993c2e582da40e4c588cea3c2cff51de7cca3f2b9e61dd353b70e466adba2int,
        0x87839ef24a64f38bd815ec4a4365c88ede5f357955ce4b5973723cdc88e5c20fint,
        -0x5e3c892784e5a27a748b9a0cfe491e421dbfc001f79486e78c65823ea4653b0af9ab0e4512c0756a0db2f06f37eb821595d09a388305ce1a9f53b6de385644int,
        0x58af6104da8ad058119e704edf1e9b7649b8c87a4602660702e59cd34cd1c396int,
        0x8557377a781a1e163997170cb10119e5ba92e07c5f460a1f5d41bc853522a772int,
        0xd3d6ba447764e08c85fa3c908b5741b441e646f52e5d2a7dde10b8f118c409c3int,
    );
    let e = lemma_reduces_next(
        r,
        e,
        p,
        b,
        0x87839ef24a64f38bd815ec4a4365c88ede5f357955ce4b5973723cdc88e5c20fint,
        0x58af6104da8ad058119e704edf1e9b7649b8c87a4602660702e59cd34cd1c396int,
        0xd3d6ba447764e08c85fa3c908b5741b441e646f52e5d2a7dde10b8f118c409c3int,
        -0x4b1d821f2ca5b84e485202a8943052ba5d082bd9315ead5a6b8ee446d6c52c6cint,
        0x92dcf7300d4e396aea14a2f21b9a474b5b46b4be09e51d0711f64446ad2cd773int,
        0x3int,
        0x307cdc2b093952e6a04a1fbe56b8daba4120a55e0e5cad30da467afd331df5bint,
    );
    let e = lemma_reduces_square(
        r,
        e,
        p,
        b,
        0x92dcf7300d4e396aea14a2f21b9a474b5b46b4be09e51d0711f64446ad2cd773int,
        0x307cdc2b093952e6a04a1fbe56b8daba4120a55e0e5cad30da467afd331df5bint,
        0x58af6104da8ad058119e704edf1e9b7649b8c87a4602660702e59cd34cd1c396int,
        -0xbe98bbdfbcf6fbb13c0fcdcc480d9bd974b947343ba9270bdc62e8f936e8b41bb4cf126cb0adeb6bf68e869fc1a0070a1a09cbc186452774ac5feb2e876cceint,
        0xa9c33c4981b183740ab40081fc0be1e8c75c28b2a15b4a7a15080959162d20cfint,
        -0xae4d76513c20339e48c26e65c86e65c7b8319b4f2574c5ead5aa0e885607f0dcf96cd22e2569de40c0445e7627f13cd8dc257b599a90101c39af10c49038cfdint,
        0x76c6efc4ae6e86c5a2c95e6ae3b5a03852e41000287c4f06cdf2ace9b0522ee5int,
        0xc1f572f798e65dd9239f3795a8e501e5807c4945aa9c218531b2440f95347754int,
        0x9ad47222a012b0c5c51c33cfee6237df39015323feecf0431833d18e2e83621dint,
    );
    let e = lemma_reduces_next(
        r,
        e,
        p,
        b,
        0xa9c33c4981b183740ab40081fc0be1e8c75c28b2a15b4a7a15080959162d20cfint,
        0x76c6efc4ae6e86c5a2c95e6ae3b5a03852e41000287c4f06cdf2ace9b0522ee5int,
        0x9ad47222a012b0c5c51c33cfee6237df39015323feecf0431833d18e2e83621dint,
        -0x36e69101afcaeb57a1b77d28576357541ebf7bad767c52756deb282b6c6a1d6aint,
        0xc8338029a0d3d3c4b2579f43cc86942e9c893363585f60d6cb7266fcc7834417int,
        0x2int,
        0x7a4092b361e995c35a089bf1c73289867260221c9e221b435da37e03a1b74728int,
    );
    let e = lemma_reduces_square(
        r,
        e,
        p,
        b,
        0xc8338029a0d3d3c4b2579f43cc86942e9c893363585f60d6cb7266fcc7834417int,
        0x7a4092b361e995c35a089bf1c73289867260221c9e221b435da37e03a1b74728int,
        0x76c6efc4ae6e86c5a2c95e6ae3b5a03852e41000287c4f06cdf2ace9b0522ee5int,
        -0x2839bf877652ee7ffa0683b9c85c89ed4a4ea29bc5b03a2c9b3bf90e1e931d50d45d196050391cb85a292d9166d29f3e2bcfb58034c721801c8363efbf9e4365int,
        0x95592049c3601ce17446e914a6691a64c8b509e471f67ac449326ff3d4e21d7cint,
        -0x138a831ddbeb80bf2f534660ff9b8b1bcb8813cf251ac53894e02f7915d9903c3a53e4e32f4647cd0bd4db7ddf8c6ec74a43249818445cce01dd50ea3d374bc0int,
        0x305f424b722173595c069b074ee3b58a7086e1a70863b2e4847317dba0681e8dint,
        0x1997c3bd5eb0b7b002d72b66362770425acae85e12cd9a01f260670c6d027ffb6int,
        0xe4d5a3813db40bc74cafcdee095bd9cc33ff0b44dace1ea10e5c5518250c95a7int,
    );
    let e = lemma_reduces_next(
        r,
        e,
        p,
        b,
        0x95592049c3601ce17446e914a6691a64c8b509e471f67ac449326ff3d4e21d7cint,
        0x305f424b722173595c069b074ee3b58a7086e1a70863b2e4847317dba0681e8dint,
        0xe4d5a3813db40bc74cafcdee095bd9cc33ff0b44dace1ea10e5c5518250c95a7int,
        -0x512448da1e114041f921ae28932d3c6017f80d7fa2f5e7ae3913398d0ebe6812int,
        0xc9b277c2081204fe983d9354514bb8149359217f4b77476ba10218ea2a752001int,
        0x3int,
        0x43da0ad07c7c40345a5652dec27ca7c964b22bb00260d6a774476f3c4407de74int,
    );
    let e = lemma_reduces_square(
        r,
        e,
        p,
        b,
        0xc9b277c2081204fe983d9354514bb8149359217f4b77476ba10218ea2a752001int,
        0x43da0ad07c7c40345a5652dec27ca7c964b22bb00260d6a774476f3c4407de74int,
        0x305f424b722173595c069b074ee3b58a7086e1a70863b2e4847317dba0681e8dint,
        -0x9179a00ea6ef4f8a3de905883ef6dac1951a0b123afebd4082605d4e64e412516175095c1adda770a8b32bc667965d5cc3ea94594dee9b26062e65e762f7e62int,
        0x2f50f1b9933dcdb861b69d70592620b5491fae541023bfe3411cfd30b9143e07int,
        -0x33daf1c2f8fa6dbcbe93b80ce137e8e6351d30020227835731834b030cf2174310fe0a4204c888384ca8463a873f2660f7cb0b376de9183476e2e6cf38a625dint,
        0x3c9f1514103a72b66745126d53923542da4f706dfcd311491cf83012b8726960int,
        0x79a078204367cfe42124d9438cb6df53c863c9192b446c25eba4cdba24295beeint,
        0xa7b1e1424822086bfb493843d71be8934a5593059abdb46bb3a5c8a26bc44a93int,
    );
    let e = lemma_reduces_next(
        r,
        e,
        p,
        b,
        0x2f50f1b9933dcdb861b69d70592620b5491fae541023bfe3411cfd30b9143e07int,
        0x3c9f1514103a72b66745126d53923542da4f706dfcd311491cf83012b8726960int,
        0xa7b1e1424822086bfb493843d71be8934a5593059abdb46bb3a5c8a26bc44a93int,
        -0x3b76600b835168f5a2cea7cf5a39c0c15f7c9cd752e72aeb5e5c9223e62f434aint,
        0x7ed3ee8df73c2c8e96fc96bf15c4657809e4658bb8e19f9b82deebe159c1c3a5int,
        0x2int,
        0x266695826ba3e6fa5392463bde79da6f28206762e05cdd265c0e5717fc611dc2int,
    );
}

/// A power of a root, step by step.
proof fn power_2(r: int)
    requires
        root(r),
    ensures
        reduces(
            r,
            0x1ffffffnat,
            0x7b42f7321b1720a030ddad58dce5f204ca5fdfc2e97b2e74e9a9eaa031254eebint,
            0x2acdbd1c45fe95dd78e5639de0ddfc4cf3bb8107c300b0860fe93d96d39ca575int,
            0x6b5ef447ad89bf1050ce394f7fc7f06c1b44b191fce55dbf37341b4c6b20eed5int,
        ),
{
    let (p, b) = (
        0xffffffff00000001000000000000000000000000ffffffffffffffffffffffffint,
        0x5ac635d8aa3a93e7b3ebbd55769886bc651d06b0cc53b0f63bce3c3e27d2604bint,
    );
    power_1(r);
    let e = 0x1ffffnat;
    let e = lemma_reduces_square(
        r,
        e,
        p,
        b,
        0x7ed3ee8df73c2c8e96fc96bf15c4657809e4658bb8e19f9b82deebe159c1c3a5int,
        0x266695826ba3e6fa5392463bde79da6f28206762e05cdd265c0e5717fc611dc2int,
        0x3c9f1514103a72b66745126d53923542da4f706dfcd311491cf83012b8726960int,
        -0x672e3df317092bddfa12e45c0ee52139c15bb6c83b84454b67d487b5231551493fc67764e477a46218cd4c60faa2bb2054e90a460f0b08e1aa833c27cfe55ccint,
        0x2fedb2e42d06b92070b84501f5e7f4dd34eb0025f98887faed2639928411060dint,
        -0x51717689771f0d0f864febfe6eac03e4b002c011e6995bc89bc05accf533a2aa526244670f5b683b427275e8ac457afc55b95af2194b9e2465d60fc15302569int,
        0x65bedee4fe786d2d01417eb6d4985ef7dd520f4616a9e86f821b7d786d8572bint,
        0x6ce473abef75d0509153db1e730a13d54d9456425e039f859ffcf9a489a93fd6int,
        0x42e596ce614db1cbb361cda2f905ebe658952041dc0caa36b3e79be9cb86889aint,
    );
    let e = lemma_reduces_next(
        r,
        e,
        p,
        b,
        0x2fedb2e42d06b92070b84501f5e7f4dd34eb0025f98887faed2639928411060dint,
        0x65bedee4fe786d2d01417eb6d4985ef7dd520f4616a9e86f821b7d786d8572bint,
        0x42e596ce614db1cbb361cda2f905ebe658952041dc0caa36b3e79be9cb86889aint,
        -0x17b882a96ff8d2594161fc154d9edae10bd407ae0b69867ae9903de350741369int,
        0x42b1dc959cde965bbcdfad655c367accc9f8fef180f8c13cc6cdc7d417942779int,
        0x0int,
        0xf89e774f50efce838addadeae0f9b8903eaa60eb8dae869f08dd0d4fe6a49fdbint,
    );
    let e = lemma_reduces_square(
        r,
        e,
        p,
        b,
        0x42b1dc959cde965bbcdfad655c367accc9f8fef180f8c13cc6cdc7d417942779int,
        0xf89e774f50efce838addadeae0f9b8903eaa60eb8dae869f08dd0d4fe6a49fdbint,
        0x65bedee4fe786d2d01417eb6d4985ef7dd520f4616a9e86f821b7d786d8572bint,
        -0x46132edc29f088daabd1ae48c3f90f307aff2e56b4c36f0486b470aa5a2b18eb1633bf921f319e682c2445e7a4959baa13a94e821e3ba4fc8f9e7553c91308fint,
        0xa4270dccf49ad1d61b96f03431eaa4c823f188ac0f3a429125346e5b58bcacdcint,
        -0xe56be171da8de02e65a4f6ed4c0e40243630e2ae0f234804aaf4480b315c9d1c7a088ce75e53a3abc7cf134a62d0233424d11b971d95e6f45b0fe9f24c6f1int,
        0x51d6a7300edd9d27de60a9d24a54424205bde67e7243a6cafb1b44dd58803d18int,
        0xf53cf68404fa31eb95292a1b0d0e22d19a0f04b292f7a05e7dce628bfaf733c7int,
        0x2347dee1f9ad16c5c38531b813df236ad6b7dac304834e0b91f23d9548e53d71int,
    );
    let e = lemma_reduces_next(
        r,
        e,
        p,
        b,
        0xa4270dccf49ad1d61b96f03431eaa4c823f188ac0f3a429125346e5b58bcacdcint,
        0x51d6a7300edd9d27de60a9d24a54424205bde67e7243a6cafb1b44dd58803d18int,
        0x2347dee1f9ad16c5c38531b813df236ad6b7dac304834e0b91f23d9548e53d71int,
        -0xc82955d9e4f2f46f7e1ef46ae49b087fef13c7ffbbcebc566f797111ace2687int,
        0x29b21d238a9550c7dce5c3feb4c39f0803d017edf89c208fdf8e4d15f54c795eint,
        0x1int,
        0xdfeaa73e1a216266626855c6d880f08a81918f41cc42cb3db0b271b336c6530int,
    );
    let e = lemma_reduces_square(
        r,
        e,
        p,
        b,
        0x29b21d238a9550c7dce5c3feb4c39f0803d017edf89c208fdf8e4d15f54c795eint,
        0xdfeaa73e1a216266626855c6d880f08a81918f41cc42cb3db0b271b336c6530int,
        0x51d6a7300edd9d27de60a9d24a54424205bde67e7243a6cafb1b44dd58803d18int,
        -0x32c39c1b3a1563d2826c8e27cfa97b8ba76d23e40b5ab43082e20ab857fa5078e9f8796cfc78835b5affe669a185ca45933c6b9722b8c3b7bd533706e96f23bint,
        0x717ea9e9587e4b4c586082233de5aa535cc73e6eb2c71b94c2c49c66d66a7949int,
        -0x946dc11c82e2ae662a2c06b3f30782a7bb6075f011eb07e6a03f02657978f0f94d6afefb378c8811625636b78e2bf29b94b073dbe47369f8aca3c08c2c6f59eint,
        0xb14cd93291e2d19238b9eb6b41f245ec4e23c9ee7e3031b13a296ec6f1c8cbe2int,
        0x69e91aaf2ddd0ea069e2b771ce616c479790f1f52d5653a9a81f34b32aa4a559int,
        0x10d74efedabfb9394d45afb52f879404d2a884b903980ab6135c34d350e72b9int,
    );
    let e = lemma_reduces_next(
        r,
        e,
        p,
        b,
        0x717ea9e9587e4b4c586082233de5aa535cc73e6eb2c71b94c2c49c66d66a7949int,
        0xb14cd93291e2d19238b9eb6b41f245ec4e23c9ee7e3031b13a296ec6f1c8cbe2int,
        0x10d74efedabfb9394d45afb52f879404d2a884b903980ab6135c34d350e72b9int,
        -0x5f8bbd78c3592893451ce0fab4cc46d6d80679d30debad163bd1af1b8b96c0int,
        0x713639227bb49401dae1c7ea9d00e049eef49bc2129155d51d1b24aaa3716d0dint,
        0x0int,
        0x74a708b921823e0716dd931536cf16144446d75163739d96e665e64e7595d174int,
    );
    let e = lemma_reduces_square(
        r,
        e,
        p,
        b,
        0x713639227bb49401dae1c7ea9d00e049eef49bc2129155d51d1b24aaa3716d0dint,
        0x74a708b921823e0716dd931536cf16144446d75163739d96e665e64e7595d174int,
        0xb14cd93291e2d19238b9eb6b41f245ec4e23c9ee7e3031b13a296ec6f1c8cbe2int,
        -0x394b7e5b9ddc85f8861dff1679f0cbdf14faef3218180dd49870c09ca3a8e5e59a500ff33fc2e9b832e3900adbbd9153d5fbb181f56be4c5faf5d34c5df42efdint,
        0x5f4a702e07924c03a03ca8bc230a37e7b550d1968f68b2b17fb560505a00ebcint,
        -0x2b8a9140073d8fd02e864a2d690f45a165afc002ed32ffd97ad4a06346bd8a05ec86e9290f6d4d0130d5ac5812d5ac4a7a92a28d07cf8848d6b90a12940d2d61int,
        0xabd9d2a51494a5682f80bf44732f1cbc381a070fef9a3e38746b73b509a1a32bint,
        0x2425ad2718145c0ca4dd0031de82a9cfce05ec9091cc064aafd2398a5fedcc025int,
        0xfcae263f713acd25ebc1552890af83021c0ed5281f158b5b6bcdf282ff4b2035int,
    );
    let e = lemma_reduces_next(
        r,
        e,
        p,
        b,
        0x5f4a702e07924c03a03ca8bc230a37e7b550d1968f68b2b17fb560505a00ebcint,
        0xabd9d2a51494a5682f80bf44732f1cbc381a070fef9a3e38746b73b509a1a32bint,
        0xfcae263f713acd25ebc1552890af83021c0ed5281f158b5b6bcdf282ff4b2035int,
        -0x5998dd4a2559fbb4004f77fdeb7d725248b80830dd52ad39e94cfddca1e07f7bint,
        0x535e2e58b250dd180230a1c8c8de8221c7feae195834d64fd0adbfa7e88f30feint,
        0x2int,
        0xfbff19c334298c2ffd47ca05743f2c84cf818c8fc6372d3d5b652d8e03816f5dint,
    );
    let e = lemma_reduces_square(
        r,
        e,
        p,
        b,
        0x535e2e58b250dd180230a1c8c8de8221c7feae195834d64fd0adbfa7e88f30feint,
        0xfbff19c334298c2ffd47ca05743f2c84cf818c8fc6372d3d5b652d8e03816f5dint,
        0xabd9d2a51494a5682f80bf44732f1cbc381a070fef9a3e38746b73b509a1a32bint,
        -0x77f75aa8897a6cb49b5e2d9e89cbb64d91bdb9653c497144a45e9c6b340bbd388a4c21749058df0408386116e04649cbf0c769865bc2bb6ab993f2cfc2de2282int,
        0x5e08c41bf8e6218342cbfdf4a1d4f60b9d6bc133c5f4a0cf23f1d066d03cca58int,
        -0x28e7eaee2524c10ff2f33740be78147694c6cdb8a8d757ca1e6d46e0a0bb8eb4cd657578eb9b25fabdcaf97056093d7a96271b6bd596025409566724fc8fddb6int,
        0xf2f6731013588396370bc6fba57c015af4d8bf781b16e4efa08f5e7f972a30ddint,
        0x2c21215c0f150793b5b38a25325f6c35fbeff78b0059c2a00c2b5e1fce6bf6e9eint,
        0x98261bf7d3537d63badaf324a218c3e93374e26c1f4d7d40a6190f7f73267b66int,
    );
    let e = lemma_reduces_next(
        r,
        e,
        p,
        b,
        0x5e08c41bf8e6218342cbfdf4a1d4f60b9d6bc133c5f4a0cf23f1d066d03cca58int,
        0xf2f6731013588396370bc6fba57c015af4d8bf781b16e4efa08f5e7f972a30ddint,
        0x98261bf7d3537d63badaf324a218c3e93374e26c1f4d7d40a6190f7f73267b66int,
        -0x35f3334fa10a06ee8d2e627eff9a26a1ff3b3ac5ffdccb130e02263501c4fc07int,
        0x717498ae779d4f836b5ba102c82f66c6bfc6bb4bd57257810b6d673410029d17int,
        0x2int,
        0x267b180572e099ac735cd762881f41c737ca687623dd1891163cfee529b03c8cint,
    );
    let e = lemma_reduces_square(
        r,
        e,
        p,
        b,
        0x717498ae779d4f836b5ba102c82f66c6bfc6bb4bd57257810b6d673410029d17int,
        0x267b180572e099ac735cd762881f41c737ca687623dd1891163cfee529b03c8cint,
        0xf2f6731013588396370bc6fba57c015af4d8bf781b16e4efa08f5e7f972a30ddint,
        -0x19e65b0e7979b1235412df3b898bcec07402465664ca4b4887ea85c676ebc8f0741681a2493a7ed17fdbedb434860061553b1b1a80253f0f6334e664990520d3int,
        0x4c0e67fbd1ba93e7b15dfb7316e438e90a92613e3d66e4385f9e1b397fb53e56int,
        -0x51c39384a7e65544b9ec4a5e96b8e8ad85580ef8fa60c899e60b14691a5b445a78d21603126da4fe690f20cc8a3a048ef3e748cfc42f7153c609ac3972ffd88dint,
        0xd830b82e935e1e968d7eddbf484f7bfe8303051ef385f8ff3b3b6db3a44cf8e0int,
        0x390e84574c2692dcb4b2ed19cdffa90b364fe436bbf3af37c109b845ff3fc9628int,
        0x2c5b7e600a07e9a20e98d2593c9d94fbb3a0f7275c16e5bb65651c0fbf4d38c9int,
    );
    let e = lemma_reduces_next(
        r,
        e,
        p,
        b,
        0x4c0e67fbd1ba93e7b15dfb7316e438e90a92613e3d66e4385f9e1b397fb53e56int,
        0xd830b82e935e1e968d7eddbf484f7bfe8303051ef385f8ff3b3b6db3a44cf8e0int,
        0x2c5b7e600a07e9a20e98d2593c9d94fbb3a0f7275c16e5bb65651c0fbf4d38c9int,
        -0xfba82860d64782adbe72f117c70d2c2bee9ae1b3c17b95a9c0b9fd3fe0d0911int,
        0xbfdc1b13723fba60d6f5a13bd37adc9243c9a023ba4247ae6feb224cd25f40cint,
        0x0int,
        0xd120e31befd250cddd28727eccbcf7dc257546b451ab956a8fcd6f68bd9ce8b1int,
    );
    let e = lemma_reduces_square(
        r,
        e,
        p,
        b,
        0xbfdc1b13723fba60d6f5a13bd37adc9243c9a023ba4247ae6feb224cd25f40cint,
        0xd120e31befd250cddd28727eccbcf7dc257546b451ab956a8fcd6f68bd9ce8b1int,
        0xd830b82e935e1e968d7eddbf484f7bfe8303051ef385f8ff3b3b6db3a44cf8e0int,
        -0x7d3ed985acaf46130b353c9456928edf766c8fbd97e3e9d160edb3a96de37fff40819a47e31bb7a762d6b5bc6b9f1ec2c9b8424e68f279a9b5b801b403ed0988int,
        0x7423fbe13687915c77a5d94804db497ec29c931aac27246a6f41545f93cc7c8int,
        -0x40bcc60bb4d1716e45cced6c9f03126a617f9798166df6a68d325726027a4d817ac6227fefcf436ca86a51990b508980a64f8bcad41f538942ab73656b8fb62bint,
        0xbfb9e4ead397ec9f5ea705ec666b61c2c4ccea49db6d9709bb9f1bb81cd487adint,
        0x2e2ce3e916fc561e0268e2965e8ccf8ae6542486d86372187578638dff992e7c2int,
        0x528475f34c1eaaa4b1e5622da199a0f5d37673e85e3cb20e5d87521db606d323int,
    );
    let e = lemma_reduces_next(
        r,
        e,
        p,
        b,
        0x7423fbe13687915c77a5d94804db497ec29c931aac27246a6f41545f93cc7c8int,
        0xbfb9e4ead397ec9f5ea705ec666b61c2c4ccea49db6d9709bb9f1bb81cd487adint,
        0x528475f34c1eaaa4b1e5622da199a0f5d37673e85e3cb20e5d87521db606d323int,
        -0x1d427546233fd90984090e1800b7fe3f4d011fb04a6ebfb4c3d1c129ca3c9e13int,
        0xaf0dfa011649181aa84bfb6fd1ee95a5c2c4249ed80a82da8d5659a1cae066acint,
        0x0int,
        0xfecfa197f7c47903dd2a841d651a9779668d24eac5788871bf8a0b9f1b514131int,
    );
    let e = lemma_reduces_square(
        r,
        e,
        p,
        b,
        0xaf0dfa011649181aa84bfb6fd1ee95a5c2c4249ed80a82da8d5659a1cae066acint,
        0xfecfa197f7c47903dd2a841d651a9779668d24eac5788871bf8a0b9f1b514131int,
        0xbfb9e4ead397ec9f5ea705ec666b61c2c4ccea49db6d9709bb9f1bb81cd487adint,
        -0x8755f10132e2b477958d984f62eb4e15c8cfceede8755f4c7393405a884d6279c9d6907648a954c448c371b204f76e504e7da0f93eff97ff728aa3f4376bc6d6int,
        0xd773163b4ed2dc85bedc585b0b4db19092a6c728cc7551d5e133a8f8d53bdbcint,
        -0x32ea3b65199b07eaab57e716483e953bef59c9bae2b1cd2248c2106b07dd1ae4fcb4820a9d1032a2c3f94ceddad527ac8804add869ab1120394d285565f1e36eint,
        0x6b5ef447ad89bf1050ce394f7fc7f06c1b44b191fce55dbf37341b4c6b20eed5int,
        0x3b29a83202c9b9340f5fa752bc45665b722b048d0fa56f085d0065cd3600dc9ffint,
        0x9c783e8305b22b1b4528a08100db5bbf8db06dc676873cd909cabad176da293int,
    );
    let e = lemma_reduces_next(
        r,
        e,
        p,
        b,
        0xd773163b4ed2dc85bedc585b0b4db19092a6c728cc7551d5e133a8f8d53bdbcint,
        0x6b5ef447ad89bf1050ce394f7fc7f06c1b44b191fce55dbf37341b4c6b20eed5int,
        0x9c783e8305b22b1b4528a08100db5bbf8db06dc676873cd909cabad176da293int,
        -0x377b6be3f343fcbb3046c451d30ad799820d0aacb2fc20eb38e2193132ef004int,
        0x7b42f7321b1720a030ddad58dce5f204ca5fdfc2e97b2e74e9a9eaa031254eebint,
        0x0int,
        0x2acdbd1c45fe95dd78e5639de0ddfc4cf3bb8107c300b0860fe93d96d39ca575int,
    );
}

/// A power of a root, step by step.
proof fn power_3(r: int)
    requires
        root(r),
    ensures
        reduces(
            r,
            0x1fffffffenat,
            0x37859504e1abe59bb9f9cd46a910f082bbd82b6cad26c229746b5ccaa358b71aint,
            0x1b13983db4d0a1aa50818e312945bc74a32decaeb1fa95ab733c5191c2438731int,
            0x3bf085fc1c496cccb856ca18dfed65d359d41f9ebf34b9635fe2b448383c20aaint,
        ),
{
    let (p, b) = (
        0xffffffff00000001000000000000000000000000ffffffffffffffffffffffffint,
        0x5ac635d8aa3a93e7b3ebbd55769886bc651d06b0cc53b0f63bce3c3e27d2604bint,
    );
    power_2(r);
    let e = 0x1ffffffnat;
    let e = lemma_reduces_square(
        r,
        e,
        p,
        b,
        0x7b42f7321b1720a030ddad58dce5f204ca5fdfc2e97b2e74e9a9eaa031254eebint,
        0x2acdbd1c45fe95dd78e5639de0ddfc4cf3bb8107c300b0860fe93d96d39ca575int,
        0x6b5ef447ad89bf1050ce394f7fc7f06c1b44b191fce55dbf37341b4c6b20eed5int,
        -0xcbb452f115a0c85f4aef2759ef62130fa94532064ed2d6a52662f0b5445cd0c225e0fb0b6a088be00fec0ccc7307f52f25c294f6c21d2cbaebd6671368d963bint,
        0x753f47ca3a0b8e2bd06841db4c11c4c1e64140032ace261697845b83dfbe158int,
        -0xff7dc42a1fa38ad037c92991ce496bc59b2badf812cad3feca39392cf132ebe5c8a299c12c7266d9041f0c31c17f1e5a9892f8bce85ecf2c5227b88301373afint,
        0x8dae771a2ddbf224ce078c5f4e07b76152478ab24c904f63058a95af6f3d6f82int,
        0xf5a71cb96aec6ed01bed16282e0f32db8fd81a839312a6a52a8e4dc574ecd03eint,
        0x45e49ce5c4221126474362c39734521dfeda44e08fd853f4a32997519e395670int,
    );
    let e = lemma_reduces_next(
        r,
        e,
        p,
        b,
        0x753f47ca3a0b8e2bd06841db4c11c4c1e64140032ace261697845b83dfbe158int,
        0x8dae771a2ddbf224ce078c5f4e07b76152478ab24c904f63058a95af6f3d6f82int,
        0x45e49ce5c4221126474362c39734521dfeda44e08fd853f4a32997519e395670int,
        -0x18c87cadb54beae488456a6bb2799fb5d6c63d7c11c4916547c3a567d719217cint,
        0x68f62a5bb7b19b59e355040de947fc47b6376f82f3518b0aa1fab40555d08bb4int,
        0x0int,
        0xd901cb2df006ec5592d0ac687a5e12a61af2e2a1e235de3f52f50bad18a7e4a8int,
    );
    let e = lemma_reduces_square(
        r,
        e,
        p,
        b,
        0x68f62a5bb7b19b59e355040de947fc47b6376f82f3518b0aa1fab40555d08bb4int,
        0xd901cb2df006ec5592d0ac687a5e12a61af2e2a1e235de3f52f50bad18a7e4a8int,
        0x8dae771a2ddbf224ce078c5f4e07b76152478ab24c904f63058a95af6f3d6f82int,
        -0x552c2cd24b0c43eb1c6b49443d91586d40859cca738c7bb1ba59f53226a53008e6e7b8a38bfb94937a0ca70e33fdfe907fad7c66dc49ef3d4e21785fa8a51748int,
        0xd4e542053828fcce6c2450d1384d2d5f96da2fb87e391fe46849d00631d82268int,
        -0x1bcdda9996178da6c33ee71af3414d37b08b15abb775c4969c021a4708993e791464e69e6f5c880884b588ea6cd4b7717b8d07290a1ad193fb2017a22d0b8e58int,
        0x435d6cadb1ad5455ff09acaa88cb6db491f2f3822e9c548c8d1a250c12b429cint,
        0x2175f37b90078c30c9cd50176a0cefe201dd06bc1b6c666cc4c29ccab94a1ea94int,
        0x97f983f79211dcb638afba2fad8133968d39a67e18581098ad0944b5125b8db0int,
    );
    let e = lemma_reduces_next(
        r,
        e,
        p,
        b,
        0xd4e542053828fcce6c2450d1384d2d5f96da2fb87e391fe46849d00631d82268int,
        0x435d6cadb1ad5455ff09acaa88cb6db491f2f3822e9c548c8d1a250c12b429cint,
        0x97f983f79211dcb638afba2fad8133968d39a67e18581098ad0944b5125b8db0int,
        -0x35e3635898a0b6da3a3281f6e01e6f7c24a877d99069b10e61fea4e38cb1c74eint,
        0xf2832abd79307cb19b57b9572e8afce113eeba948939bba6052fc0ddb2f9b622int,
        0x2int,
        0x9cd1cdedee5e92ef16337f6040d0c8233e872330c74151ae6f659e2568eacb7aint,
    );
    let e = lemma_reduces_square(
        r,
        e,
        p,
        b,
        0xf2832abd79307cb19b57b9572e8afce113eeba948939bba6052fc0ddb2f9b622int,
        0x9cd1cdedee5e92ef16337f6040d0c8233e872330c74151ae6f659e2568eacb7aint,
        0x435d6cadb1ad5455ff09acaa88cb6db491f2f3822e9c548c8d1a250c12b429cint,
        -0x1d43cfdb20f76fa28381e2816235bb58bf3af22e954098f50245a84a72775e430829bc95749a0d8299cffbbba28b6ac28389be11f042a400af1d78f57e9d38bint,
        0x362e5669f13b61cb076ccee1c2e311080ab2a9b6fec53d304c5a3364934f8969int,
        -0x64920c5c078ab79a8c6bb904c4ad9bfde7d9ae33dc97c3fda5ca80d1baa6e49d7d503cf23867a2e3ea644296f891acde1e06704ec00cc658d5ba97e8a585fint,
        0x50f06013621fbf39333d3899bec12b88149cd432df7ef783eb539f5b9b8f3069int,
        0x683fa7a077e83ff7a6c89e3e48aacdf4de1acb360458b80f845b88fcffef4ad2int,
        0x49938795232b6476da0340f7a267093fed6d124561a616394e3168e60f93ef96int,
    );
    let e = lemma_reduces_next(
        r,
        e,
        p,
        b,
        0x362e5669f13b61cb076ccee1c2e311080ab2a9b6fec53d304c5a3364934f8969int,
        0x50f06013621fbf39333d3899bec12b88149cd432df7ef783eb539f5b9b8f3069int,
        0x49938795232b6476da0340f7a267093fed6d124561a616394e3168e60f93ef96int,
        -0x1a16d53f36465e3650ff57b297bfeeaeabf63703afe44e112be991f899f03d47int,
        0xc80bb64e3d12c77048054e1f8d5974674ce5fdc1a06bb78a7c7eed9af8d451c7int,
        0x1int,
        0x12e8ed2a5abd8f2e957691c8aa182cc7d2f9e08623b77fdc36ee6e16c20b582cint,
    );
    let e = lemma_reduces_square(
        r,
        e,
        p,
        b,
        0xc80bb64e3d12c77048054e1f8d5974674ce5fdc1a06bb78a7c7eed9af8d451c7int,
        0x12e8ed2a5abd8f2e957691c8aa182cc7d2f9e08623b77fdc36ee6e16c20b582cint,
        0x50f06013621fbf39333d3899bec12b88149cd432df7ef783eb539f5b9b8f3069int,
        -0x43d6c381aa2055933d009fd2857caf0d2303c9afe8e5970056b7b268c1a73bbb9aa0e9d5415ed9cf37ce14fb82add48d74c305acbd4b81a8e171902644d6603int,
        0xd59bd81b64e29a6a60586ed512eb90f1c3a3a0fd52c876ec81837d533fb0ffa6int,
        -0x912f0b8a153481f4f007d914363202f6864a56f0359e71eba9a0f43e784b7bd1cb56feab35203bea518d41470761e8c243b6fa315d50912eba2648dca34d8faint,
        0x5ae8b4b43cd98e8c85604c3e8faa0519b2742321a2a74d1add03723c332671bbint,
        0xcca9ec9877c82c2c440855ae5633d234d8e7d3c1a9f741699dc2cf8f92645ac6int,
        0x9da11e791f60409096101a6ea8818b746979931d184bb247a341157bd512f8c7int,
    );
    let e = lemma_reduces_next(
        r,
        e,
        p,
        b,
        0xd59bd81b64e29a6a60586ed512eb90f1c3a3a0fd52c876ec81837d533fb0ffa6int,
        0x5ae8b4b43cd98e8c85604c3e8faa0519b2742321a2a74d1add03723c332671bbint,
        0x9da11e791f60409096101a6ea8818b746979931d184bb247a341157bd512f8c7int,
        -0x37e4b07c22aca5219be3fa3d3b9537f9a3da54d95600e2f3beb8640fd928b7acint,
        0x5fb5192f2389d95e26116544231da8ae1de4e64e59fe416b6e144f1938bfc607int,
        0x2int,
        0xae7f3388c3035c1a2288be210c70334f00105a529bab8dc36b46bdc6bee9e9fdint,
    );
    let e = lemma_reduces_square(
        r,
        e,
        p,
        b,
        0x5fb5192f2389d95e26116544231da8ae1de4e64e59fe416b6e144f1938bfc607int,
        0xae7f3388c3035c1a2288be210c70334f00105a529bab8dc36b46bdc6bee9e9fdint,
        0x5ae8b4b43cd98e8c85604c3e8faa0519b2742321a2a74d1add03723c332671bbint,
        -0x2bf1dd8963d046edb0b16bb95cb23c7a531a5d6f7bd5df9065222fbc13547d513b34f5e38c7c92287e5b53ce95e45f01db7d187855a0a56b4ab0e124c20cd20cint,
        0x17380eea5c2890ce8ccd57d1541a05288092915067c7338b52d36769c98b38dbint,
        -0xb72771bfe38facdfffd36b77770ca2ac6eb66086dfddb175c946ba593d0977110e9853b0e3b16c1a29e0ab8ace5faac4cbf096fffdfa9bfdb9abb08a4fc5982int,
        0xaf4c87594fd340d31e6d4217f4202fffc92afe80cfdd1beaa04c47b9f86b8c5bint,
        0x11bc3d617adffeacd97317807d498619eaea5d1fb581bc1223adcbb200d6f7fe0int,
        0x2ec05106d0dd722a887e02bba733ec339adfe9dbd0960b04b8b309d68f095beeint,
    );
    let e = lemma_reduces_next(
        r,
        e,
        p,
        b,
        0x17380eea5c2890ce8ccd57d1541a05288092915067c7338b52d36769c98b38dbint,
        0xaf4c87594fd340d31e6d4217f4202fffc92afe80cfdd1beaa04c47b9f86b8c5bint,
        0x2ec05106d0dd722a887e02bba733ec339adfe9dbd0960b04b8b309d68f095beeint,
        -0x1093cf10836863db685b8233b50ae653694e80f9b89525f5c6658b6de5e13f8fint,
        0x66cb97b810eee790891093710fd02fd292fd9900bdac2d1e8e564ec004ab91b7int,
        0x0int,
        0xa37901fecec0e74e2647600449b5c9c351324ee3d98954997cec84ed76a74ca5int,
    );
    let e = lemma_reduces_square(
        r,
        e,
        p,
        b,
        0x66cb97b810eee790891093710fd02fd292fd9900bdac2d1e8e564ec004ab91b7int,
        0xa37901fecec0e74e2647600449b5c9c351324ee3d98954997cec84ed76a74ca5int,
        0xaf4c87594fd340d31e6d4217f4202fffc92afe80cfdd1beaa04c47b9f86b8c5bint,
        -0x4f628139a88b736747f788d00aeb0a66009a1aa1ae032a2c66757c6a61d93110c3aa35a689baff876f4ca78cb6952a5affd5a99608bf67d2d28d60e22ae63777int,
        0xe4baaadbea805ab6fdf90324941b9ed1572a38e23627ea55e4211bde161d7b80int,
        -0x2a905b6d422cfe60695c0453121ad28d7f0f8161be0a30f2c210b28081c7cb05066476b7eaa00920305d0c45ef560c1fa4fb8c6ca0d4d88ccc0700dd4c782a1dint,
        0x4dc1f40a4618bd7178458add6158745c22e1a0f5e209b469b318692c4e4581a0int,
        0x25d4848882ac1967be84d312b981c3fe867477ef5f17e7a934ff8a515f008cdd7int,
        0x60acedd02acf2f67c42fb77d2d333a6596625210ccfc699bbbab765f4da5e955int,
    );
    let e = lemma_reduces_next(
        r,
        e,
        p,
        b,
        0xe4baaadbea805ab6fdf90324941b9ed1572a38e23627ea55e4211bde161d7b80int,
        0x4dc1f40a4618bd7178458add6158745c22e1a0f5e209b469b318692c4e4581a0int,
        0x60acedd02acf2f67c42fb77d2d333a6596625210ccfc699bbbab765f4da5e955int,
        -0x2247a5b0dfc34e0fd078ff52536e039152b86cc47594ca8e6f79ef92928b890eint,
        0xd1755f8abe332c1e4d3acb3d695bb2ebfbb37d438e446b839fa03e281b9f3b0bint,
        0x2int,
        0x6c1744e6aede8ec4a88299c1bb54e021a512f129d1d272917237efbff0f3781int,
    );
    let e = lemma_reduces_square(
        r,
        e,
        p,
        b,
        0xd1755f8abe332c1e4d3acb3d695bb2ebfbb37d438e446b839fa03e281b9f3b0bint,
        0x6c1744e6aede8ec4a88299c1bb54e021a512f129d1d272917237efbff0f3781int,
        0x4dc1f40a4618bd7178458add6158745c22e1a0f5e209b469b318692c4e4581a0int,
        -0x174887a86b0f42d91a5da5007daeff7d9ff6d84cb2bb4863189b0d6a951797d106b314c035dd7bbe5150cbb21fcbd329beef5dff5ac3694f7281f3ed2f145c0int,
        0xc738fb335dcae68587dcbace87a6b2f39e7eb74434932dbc4cf652203f4cb8f9int,
        -0x85febc69c5ecc0a8383169a9f484d45bc62bc32e222dd6fb9c11baba9b984dc0ed567554912fde85ea154fe1c1cb3b3f2cc04f4024b14959edd15e5cc0a825aint,
        0x23d6d925b4f18fa79f2b41525e959a932095d69658648eeb1a8a534069afd67cint,
        0xc64660b144e096857ff81dc9ff210f220ca47e29392c8fecbb677d11d84b08fcint,
        0xdb0d777617177027060ed52f47cfaa15dcd95a1d033baa59f860b3a9d19287bdint,
    );
    let e = lemma_reduces_next(
        r,
        e,
        p,
        b,
        0xc738fb335dcae68587dcbace87a6b2f39e7eb74434932dbc4cf652203f4cb8f9int,
        0x23d6d925b4f18fa79f2b41525e959a932095d69658648eeb1a8a534069afd67cint,
        0xdb0d777617177027060ed52f47cfaa15dcd95a1d033baa59f860b3a9d19287bdint,
        -0x4dac567d65e1bf675f4e8d0495fffff28a3695b13a044ddb012f06933e38dd23int,
        0x99559e5f50d2affe9333d7a14717f0f96164e6bbbb1878e3d47e3f6e44e87e7eint,
        0x3int,
        0x58616198a31136f79a093a5c5f15b135350ac5983e462cca36186d1db4045033int,
    );
    let e = lemma_reduces_square(
        r,
        e,
        p,
        b,
        0x99559e5f50d2affe9333d7a14717f0f96164e6bbbb1878e3d47e3f6e44e87e7eint,
        0x58616198a31136f79a093a5c5f15b135350ac5983e462cca36186d1db4045033int,
        0x23d6d925b4f18fa79f2b41525e959a932095d69658648eeb1a8a534069afd67cint,
        -0x8c64c9a1e084c1a3483f2d5d7959fecab588d30a5b003ebb576152cf22b442a2bd4fe803fc5eafb30ac099c8aac4a71ff75ff00bfb767d116d7120d5b14a972int,
        0x37859504e1abe59bb9f9cd46a910f082bbd82b6cad26c229746b5ccaa358b71aint,
        -0x1c7732b8d94e6f05b8d310e65ffe5e688209d9ab81566c4c354fea82d3f64faea629c5942a179acbc9647a575dfd961599fd30be2e3ba3b31a18548293c768bint,
        0x1b13983db4d0a1aa50818e312945bc74a32decaeb1fa95ab733c5191c2438731int,
        0x587f3bc7c510167d76b4e65bb8110d4a84bd8ff2bba866cd33c3450e28d86041int,
        0x3bf085fc1c496cccb856ca18dfed65d359d41f9ebf34b9635fe2b448383c20aaint,
    );
}

/// A power of a root, step by step.
proof fn power_4(r: int)
    requires
        root(r),
    ensures
        reduces(
            r,
            0x1fffffffe00nat,
            0xf3974bc473d47ba426d3079b50d478a9a7f3ddd5f4239daeeca459519980dcfaint,
            0x804755a6d9ba1dd1970d618d183026afc87d789df8761d5d56cfac394da14913int,
            0x81ddab19198952f6e7e9c90b7d2a5b26803f74cf5fe7054b5d6115097effe0d2int,
        ),
{
    let (p, b) = (
        0xffffffff00000001000000000000000000000000ffffffffffffffffffffffffint,
        0x5ac635d8aa3a93e7b3ebbd55769886bc651d06b0cc53b0f63bce3c3e27d2604bint,
    );
    power_3(r);
    let e = 0x1fffffffenat;
    let e = lemma_reduces_square(
        r,
        e,
        p,
        b,
        0x37859504e1abe59bb9f9cd46a910f082bbd82b6cad26c229746b5ccaa358b71aint,
        0x1b13983db4d0a1aa50818e312945bc74a32decaeb1fa95ab733c5191c2438731int,
        0x3bf085fc1c496cccb856ca18dfed65d359d41f9ebf34b9635fe2b448383c20aaint,
        -0x47ef52e3857e7e27b0b11a35229f37a12cdf0f1f8a6c572ada08cac5b884a5daac89b8bc678e8b243ef2f6b37a2faab3d6d024928652bdd9677f0f288c7faceint,
        0x5099a60564a2938cb9ff13f61cdcb2fe09fe7bd58826058fe0a94469fcd19efaint,
        -0x4f9f120b358781f9f85bba451d1679d8117043db3cd83714ae27a68403516075c7424984199a087a3f38ba0b3ed67536f10ab5c6c6a40d4889cfb17c3bbc28fint,
        0x6c7c55e8e1c10050017f2de4a708bd3884c444be9a41025a2626ffe689cd15d5int,
        0x46f74a1c2bafcb771232859957005d5067a5679cdea1ee2c8614c8ba9b7cae25int,
        0xa429d3c5d36bd1e09bc764d3bde8aac5eeaeb1c593d2d01f5cd7955859e1e6baint,
    );
    let e = lemma_reduces_square(
        r,
        e,
        p,
        b,
        0x5099a60564a2938cb9ff13f61cdcb2fe09fe7bd58826058fe0a94469fcd19efaint,
        0x6c7c55e8e1c10050017f2de4a708bd3884c444be9a41025a2626ffe689cd15d5int,
        0xa429d3c5d36bd1e09bc764d3bde8aac5eeaeb1c593d2d01f5cd7955859e1e6baint,
        -0x3155f2225a87cb90ab602a4b7242e5e8941c4787bff4f5cb11e1dd7d7c459bedb2f7459486e61523991d11311c1d25da6883364d28c87659ef75b705fd941027int,
        0xf4be4f4ae0b573e340028e71ed8682f7ef4e2717857f9153c1663b6600a58e51int,
        -0x2553fb98197458bf508c2aefcf480ca1083f8bd2a5033be85517627af0ee87fa5ffdfe96db478d221810e24800958e75b59ed515f0062e4a290b30efcfacf205int,
        0x1c0e3015bbe3025af41882a622a58fdd81e3b47961609b42c133ad3bc7c87effint,
        0x1d12932aa885407ba847b4e8c372c200f08a4b70ec531901e80351f48cbd82656int,
        0x53c3b3872686532f994c9e48b6fc6d8164ac3564153521aa255023cc35434243int,
    );
    let e = lemma_reduces_square(
        r,
        e,
        p,
        b,
        0xf4be4f4ae0b573e340028e71ed8682f7ef4e2717857f9153c1663b6600a58e51int,
        0x1c0e3015bbe3025af41882a622a58fdd81e3b47961609b42c133ad3bc7c87effint,
        0x53c3b3872686532f994c9e48b6fc6d8164ac3564153521aa255023cc35434243int,
        -0x68297943ee0028da5f733f29c6e2e0faa4a0dbe6bce9ccc2c1037825e1065ba88a773ace908a9120103eb2944aa36c87144f383329dc886939d4360799fa7dbint,
        0xcd78d50d8e6c818e1bb9db44aefdca37b73a139869f4a3e1dbe7946134d1a308int,
        -0x9b7f42d69e130aee180737a821f2051704d65da0d83696d3358f56ba8eb844868e7745ec50b94ebdae5c5f31881c1d35fb5e3d29d9c24753d1a607d6bfb498cint,
        0xf9a5cc6170d9d564cc15a0b14baecb49eda8998051d85afa129682c0df2a511dint,
        0xf57627f8cb5665a3110d34ecf65055091cefbed7af4b7d8f92897e3bf59d845dint,
        0xeecb169de5459bbfefd07e4768e00ef4f3dc0d36576581e5961c124f4c27a15fint,
    );
    let e = lemma_reduces_square(
        r,
        e,
        p,
        b,
        0xcd78d50d8e6c818e1bb9db44aefdca37b73a139869f4a3e1dbe7946134d1a308int,
        0xf9a5cc6170d9d564cc15a0b14baecb49eda8998051d85afa129682c0df2a511dint,
        0xeecb169de5459bbfefd07e4768e00ef4f3dc0d36576581e5961c124f4c27a15fint,
        -0xa524d3cada15274cd0cd43e8ced5b9a6a1bd4f328bd06e97cbc1ba6b91d802076fc6dfbfa5e7d46df7046982583f692eff74ddbce62fd1eabd71e0d3a7b38133int,
        0xc0207c2965c8c938499c4a6658b282d0e75f1323abb29449e8a886106e1298cbint,
        -0x4efb5833ff45bbbe0edd115a3af9092861738978e07baf81f40e857514d0da42a5d2ffbd898640223317cb1858370d4ce6eed9aaa2c63b4d5ae90795d6f17ffaint,
        0xd329ad8af36f04ad058d759d7b8452d3819f3231073c1a2bf321a5e8925eea5dint,
        0x50f015e906ca2e8299a83ae2dbe5c07eca70013af6f974bb6d0cb488828208b35int,
        0xca46f6294253f1b55c80992919034d572fd78f19df4ad7dfd87d64479e6edc31int,
    );
    let e = lemma_reduces_square(
        r,
        e,
        p,
        b,
        0xc0207c2965c8c938499c4a6658b282d0e75f1323abb29449e8a886106e1298cbint,
        0xd329ad8af36f04ad058d759d7b8452d3819f3231073c1a2bf321a5e8925eea5dint,
        0xca46f6294253f1b55c80992919034d572fd78f19df4ad7dfd87d64479e6edc31int,
        -0x76533e0357b2df5dcec6b59b59107f6495ec590c1677605bcc9d4ac24e867e459e0ad2943b5242a82f8493dc985db1c5500808652f70c10ff27558d3e49fc5b9int,
        0x3c75b334792a11f76371c58e36ba4d701fec40658d6b2c7b321d1e0eb4cb1922int,
        -0x38ac4d4fc49d31efcbb83974314b54a46cebada2d41269f124a72653b45cdf42521b301d08a50e02c639675c702c9f3b91e053722dec8fbcee03cc0543e01e48int,
        0x3a66b2d9206f4fc0e7de72b2186aa22f356d66724d53056e59d7a43d3b952899int,
        0x3bd47b27f666296bc7e5858cfbc5527c086e026a81ca7c948a530100c905e112cint,
        0x84d586616f1d7b14dcf832c706de0c6a39d5cf036b23342ff01beebeede860ceint,
    );
    let e = lemma_reduces_square(
        r,
        e,
        p,
        b,
        0x3c75b334792a11f76371c58e36ba4d701fec40658d6b2c7b321d1e0eb4cb1922int,
        0x3a66b2d9206f4fc0e7de72b2186aa22f356d66724d53056e59d7a43d3b952899int,
        0x84d586616f1d7b14dcf832c706de0c6a39d5cf036b23342ff01beebeede860ceint,
        -0x157d88a52fda8816947ecebf5a239b31f167e538cc9397e6282cbb46108338d1576ff6920453d0b0cc9961c51d32dd35d5b7259d5f00ca1b1e120abe4392bf00int,
        0xb8ad20d6e3bc5038be7ccafdbab6280f56cf31099c5ee6f497b40683994be5f0int,
        -0x1870a61d4b13f734810717ddb64a37982fe7c50b678fc5afb0ee69617e7050e93763e00aed33a790f008be27dec0eacead56c5fbdc1219d7aacad16b016d7a7bint,
        0x659884fc9c7214748b832df65b9b93cf328deecb159e72309ecabf2e9eafe271int,
        0x11ad79c6a2cdaa60a876773094bc8e335709fa637ccb9cac105ccc1813044ebecint,
        0x4c46daac71b03d6bbf18585b935a55b9e5d7f7945a85b57dac62544adc167b61int,
    );
    let e = lemma_reduces_square(
        r,
        e,
        p,
        b,
        0xb8ad20d6e3bc5038be7ccafdbab6280f56cf31099c5ee6f497b40683994be5f0int,
        0x659884fc9c7214748b832df65b9b93cf328deecb159e72309ecabf2e9eafe271int,
        0x4c46daac71b03d6bbf18585b935a55b9e5d7f7945a85b57dac62544adc167b61int,
        -0x1577abc7ef5d2de5435bc9abfb632e57443379c610e540b2b8526ce96fdfc6d9f6529558a8cdcb822d332b38b56907441d5d554f7710a1e1a6042af90a212b3bint,
        0xfb4e04c62be27a00ed6fcd1bcd86c4f08d0bb88106f1ff16f1ac255dbd5d614fint,
        -0x80f09eb1831a7472d6e6f7de148a625aa7fccad1e2cd0cbf67e63530d34544b16a6f60416c5bab042217cc63ad2ecc233a7d1f268b1a84144d7f3baf6c2eef1int,
        0x7c14d0db949d63f65151a336644d89205cc0658595f33e747a6cba9fb9d9674aint,
        0xda8d29d3b22ee8d64ebc372a26d24e5f39ad15b3160de89ef546bed699eb2075int,
        0x139453e6bb868c2047a9c66b6816ef217956f0a555d54aee82b5d82b0cd4c679int,
    );
    let e = lemma_reduces_square(
        r,
        e,
        p,
        b,
        0xfb4e04c62be27a00ed6fcd1bcd86c4f08d0bb88106f1ff16f1ac255dbd5d614fint,
        0x7c14d0db949d63f65151a336644d89205cc0658595f33e747a6cba9fb9d9674aint,
        0x139453e6bb868c2047a9c66b6816ef217956f0a555d54aee82b5d82b0cd4c679int,
        -0x6bae4ebe40bb81792799fe3f6909c40417f9ea5b0309c8c5004f730239cbc225f3edb5d290c9209b83ad863ee7d9d7240317a8098497c574b7e2054a15868ebint,
        0xf3974bc473d47ba426d3079b50d478a9a7f3ddd5f4239daeeca459519980dcfaint,
        -0x87ee98302f861974220ab5e7c810d87822e37bc5de002f32e1b3356d7924ae288511839edc3641f3bd6299e484c113d97f695ebee3bcd91165bc324e15d91aint,
        0x804755a6d9ba1dd1970d618d183026afc87d789df8761d5d56cfac394da14913int,
        0x671306db0d3688310ea52289a842b3bb9b46b944a0cc56b1309a17083f64df2dint,
        0x81ddab19198952f6e7e9c90b7d2a5b26803f74cf5fe7054b5d6115097effe0d2int,
    );
}

/// A power of a root, step by step.
proof fn power_5(r: int)
    requires
        root(r),
    ensures
        reduces(
            r,
            0x1fffffffe0000nat,
            0x19014ac6c7eb3a198f1a95c5300328145ee9351986e33d8e4a6651a771a6b930int,
            0x65708ed7e327048d0ffaf0154c2f017f56c3388d2a36cadf0573c668850e67e8int,
            0xcbb7286d5f94cdc144c4695c3d3ec1f1f4ee96d55baf63e943690e3d412799b6int,
        ),
{
    let (p, b) = (
        0xffffffff00000001000000000000000000000000ffffffffffffffffffffffffint,
        0x5ac635d8aa3a93e7b3ebbd55769886bc651d06b0cc53b0f63bce3c3e27d2604bint,
    );
    power_4(r);
    let e = 0x1fffffffe00nat;
    let e = lemma_reduces_square(
        r,
        e,
        p,
        b,
        0xf3974bc473d47ba426d3079b50d478a9a7f3ddd5f4239daeeca459519980dcfaint,
        0x804755a6d9ba1dd1970d618d183026afc87d789df8761d5d56cfac394da14913int,
        0x81ddab19198952f6e7e9c90b7d2a5b26803f74cf5fe7054b5d6115097effe0d2int,
        -0x2e2624a6a2431916955472ad0dbbe63102e2c23711e021d1e03d1b2e5e942a083566df0f320b48901db9924e9137455bee27975349acd75b20e5df5f4ed8ae04int,
        0x997206c68fd256500b4ea5b1cf559cb80bae42370f6c8ec1a126bc581d16283cint,
        -0x175c297cf24fdc39a3af291ae78e646dbdc23cc469c389c9e35c1df07d5f35facd5ccc30a3c65c35a9a051474d1f901680ddac2037087f477047d2cf3087d352int,
        0xf8bda9d1938a66554fbfee29975080be8156e4b905aa53992695f4afcce67f62int,
        0x1fd0f2fda9d8fa54bb19b24f13f6faeec9c3fb40e1a51c96d7a49429797e66a59int,
        0x97c65747b3cd314620d1a2da095fe9f0566fa2f953a2fad34601b870d038d0b6int,
    );
    let e = lemma_reduces_square(
        r,
        e,
        p,
        b,
        0x997206c68fd256500b4ea5b1cf559cb80bae42370f6c8ec1a126bc581d16283cint,
        0xf8bda9d1938a66554fbfee29975080be8156e4b905aa53992695f4afcce67f62int,
        0x97c65747b3cd314620d1a2da095fe9f0566fa2f953a2fad34601b870d038d0b6int,
        -0x689526829d405cbcf2b680a339cc5a7ce58099e23d747e35fa1f6f609c4cf1d7b53e2618e7f6642e22389d16e49c6941cacb93244b5781fb8e069f839e8d414bint,
        0x402314c0a51d6907ae67b9c94ea6289788f47f547d3bc8617e46391f8f549dfdint,
        -0x1fe81dc32d1e58127796e933a28878b73b230d93730f3d0699af028a32fd11d6e5db04414ed0a4d4e8b6998bf1091e684ad5b0c41965d6529285f4291a7dc00aint,
        0xadeabf1c9ffec06c540373518dfe6cc158217fff13b1bbd32935d97950d10ba2int,
        0x2b5950c74461a372ac96a4cf1e758ea583a2b157ba8939b9c415cc4d1384bc1a3int,
        0x5bc3ca9879c00fd347c29dc4d2a7be4fb10906a4e9381547f598f08630419ca3int,
    );
    let e = lemma_reduces_square(
        r,
        e,
        p,
        b,
        0x402314c0a51d6907ae67b9c94ea6289788f47f547d3bc8617e46391f8f549dfdint,
        0xadeabf1c9ffec06c540373518dfe6cc158217fff13b1bbd32935d97950d10ba2int,
        0x5bc3ca9879c00fd347c29dc4d2a7be4fb10906a4e9381547f598f08630419ca3int,
        -0x2c36080c15e16da71834a12c65f4fe3bdd3897255c7c9ea384307f744b479ab1702ea3f975183cabb4a71cee37751623edab059b0ca52648f29dd7625c6b26b1int,
        0x997392dc25a56d042b29fd4cb072f57f70143c0f13657bb299fab667b5f3cf14int,
        -0xba9e6199bc441c10dc65d32d92eb8680c6faef83c8795b5d53af526068a27fbb0aef831ec1f586ebdbd0db568347462ac77fb998cfb8a931e4b29635e41c050int,
        0xdcfd1cc8f9e0873d2a153cadea73026d8af6a8f855fb9956116696a9dba5b2e5int,
        0x106d08099fdde8db480a710e7ab4d5290aae23be221c524fa252a4df5406d20ccint,
        0x6b0bf2a013898c7cab079530e11be45dc7e6f909aebe39d14647939b60172ad9int,
    );
    let e = lemma_reduces_square(
        r,
        e,
        p,
        b,
        0x997392dc25a56d042b29fd4cb072f57f70143c0f13657bb299fab667b5f3cf14int,
        0xdcfd1cc8f9e0873d2a153cadea73026d8af6a8f855fb9956116696a9dba5b2e5int,
        0x6b0bf2a013898c7cab079530e11be45dc7e6f909aebe39d14647939b60172ad9int,
        -0x41884b2526df1cac78ad97abae32736406b40f537f2d5c4ec5356a753b216186472e8af55cc35516b512672e55a5803cfdec39abcd552e41aa560a4fffa4b637int,
        0x1ef0b3efd0ccc3ccd0aa88e9f8cdd4b3d134a21caa7704a46f67976dab52e5bint,
        -0xfdf354e3bf08713e793cd51c3fa39866afa1aa21befe12f11719f8ff8f97099e9c1e2874154727421477e6516a61f746052e827cead61823db52669df513623int,
        0x4a5a28e82b2b0860deb4d7e52f7c870f28a859864dd645076096b00dfd71d8b8int,
        0x1c561eb6fdb62c29bb9de45622bd7714fbb1469e03b6318b9f77f519d2725bbfdint,
        0x947e924a89c36f04ce6ff02950a96f8da27a867985b3f31e7e14c72c28b86091int,
    );
    let e = lemma_reduces_square(
        r,
        e,
        p,
        b,
        0x1ef0b3efd0ccc3ccd0aa88e9f8cdd4b3d134a21caa7704a46f67976dab52e5bint,
        0x4a5a28e82b2b0860deb4d7e52f7c870f28a859864dd645076096b00dfd71d8b8int,
        0x947e924a89c36f04ce6ff02950a96f8da27a867985b3f31e7e14c72c28b86091int,
        -0x1e95e84788e77ab8d59a601c35e8c210f092847e4d20938b7d7a1052cbc59511f9baff63c26ee107dfa0e070bda434c953107302421722ba11b6ed65590e2dc1int,
        0xc9fcba4ac531c80f60a2b4792f294c4551d95ce6b6fd11d09a441c72f98a05c8int,
        -0x1e8ada371b2ce8a2e047d770c89e8376f9b5a7563030c9be28f5119f77548514b4f691d2f524a2d6e61216e0777ca4147c9f84db707a3bbed47d5cb9b443bcd4int,
        0xa25134b52ae5ea10b0aabfdfc2828f1177eb9718d9a57e0105628bc0d12047a1int,
        0x11a3e551d59760ab117ef2623489a16533638195f89b4dc7e7bd9f453795447d0int,
        0x9f5a49603d0ffd70c8f9cc677d1eda15d7372b946bb27fdcddf2a153b8a54589int,
    );
    let e = lemma_reduces_square(
        r,
        e,
        p,
        b,
        0xc9fcba4ac531c80f60a2b4792f294c4551d95ce6b6fd11d09a441c72f98a05c8int,
        0xa25134b52ae5ea10b0aabfdfc2828f1177eb9718d9a57e0105628bc0d12047a1int,
        0x9f5a49603d0ffd70c8f9cc677d1eda15d7372b946bb27fdcddf2a153b8a54589int,
        -0x47a744656e75e43f7a12bbfd97b011e726c8f62db37be911286a0795da3d973af27af376aae6264167cc1ea92bc2c092c58302011a4cd234f3ccfffc01963792int,
        0xe8d4e00e8f594a23f3e39bf1c652ef10089d3b55509b26c8364a7f98e0b560a8int,
        -0x232c1fef38231d089555dc5ad2aba62887fc6560b7afd97397bb23f801f9e00103c87c8fc3af4625eb265a2e6028d11f4a069917433b6d9bea8b315f8ec34ae8int,
        0x209de761a26035cd483715c1ef316ed791e77f475a676b379ef38b552bcd8ee3int,
        0x28bf51e57c312594a66549ef8ef2ea5235c8343193d38ccaad2b890704955083cint,
        0xb9d0fb7b1bd78bb9c645f5404bd7b244435d3c927af4e4dc358e98ee88bf2580int,
    );
    let e = lemma_reduces_square(
        r,
        e,
        p,
        b,
        0xe8d4e00e8f594a23f3e39bf1c652ef10089d3b55509b26c8364a7f98e0b560a8int,
        0x209de761a26035cd483715c1ef316ed791e77f475a676b379ef38b552bcd8ee3int,
        0xb9d0fb7b1bd78bb9c645f5404bd7b244435d3c927af4e4dc358e98ee88bf2580int,
        -0x10ca1dbbcd002474afa438088dbc993b5b471bd7b791506bb502b86030b7dabf0750e840ad7830a3358e15433ef08907b919278e7b983f8a52cf5072049df532int,
        0x8c649abeeabf798414b19b3caa6b110f2549c3fa7fc3a0456059ab4ac9f8ae0eint,
        -0x2fd31367a4391751847f527f0bb77fdee498a641afdba6e75feb9cc4de5227c0dfd60a568fb386ef77a63d28cf8674c15dc80415f09f774ca1e28632d5c36b4bint,
        0xe0babd724fe7dd76871201d7751294696c76581e120df5f62adbd061c3f721a5int,
        0x2eac6cca81baa6eba5bf71652570d2727d1ba7116e72d1d226650a712f8a8fa6bint,
        0x4ef64184602b6c2f7e967e167f56c599865d6ab96ca86f9a440de8202f738fb4int,
    );
    let e = lemma_reduces_square(
        r,
        e,
        p,
        b,
        0x8c649abeeabf798414b19b3caa6b110f2549c3fa7fc3a0456059ab4ac9f8ae0eint,
        0xe0babd724fe7dd76871201d7751294696c76581e120df5f62adbd061c3f721a5int,
        0x4ef64184602b6c2f7e967e167f56c599865d6ab96ca86f9a440de8202f738fb4int,
        -0x312857b4af1ce1a408cd3a4c61d25b976cdc652ec24c1b889431b620df7e44e885ca73b074eb6232593a453754e14704d564e18739e64a0bae7a18004f23ab3cint,
        0x19014ac6c7eb3a198f1a95c5300328145ee9351986e33d8e4a6651a771a6b930int,
        -0x8a2d85faa0d61fa298b2b0766085d00621c16d7e8b32a16c027a9c4ad1a68d32fbacc50ed09d0b28a2bf1efa5a370b4eac76fb2016db064ae39faa76400680cint,
        0x65708ed7e327048d0ffaf0154c2f017f56c3388d2a36cadf0573c668850e67e8int,
        0x164f3b1af3e3655d6e3464786b9e9c14ee19beed6a1a9f113cbf97bef087179fdint,
        0xcbb7286d5f94cdc144c4695c3d3ec1f1f4ee96d55baf63e943690e3d412799b6int,
    );
}

/// A power of a root, step by step.
proof fn power_6(r: int)
    requires
        root(r),
    ensures
        reduces(
            r,
            0x1fffffffe000000nat,
            0x77cd11561431fa1a95aed64ddb4b348ef0a3168d739397680f4fe9064e698306int,
            0xf034d791054e7287c7a197182d41e187e8656ee266094a17e3f08f56b5352f03int,
            0x38cb57505f4ceb3e6f8d15a8ad7021efce7e5670b653eb5cf85a3221f72cb961int,
        ),
{
    let (p, b) = (
        0xffffffff00000001000000000000000000000000ffffffffffffffffffffffffint,
        0x5ac635d8aa3a93e7b3ebbd55769886bc651d06b0cc53b0f63bce3c3e27d2604bint,
    );
    power_5(r);
    let e = 0x1fffffffe0000nat;
    let e = lemma_reduces_square(
        r,
        e,
        p,
        b,
        0x19014ac6c7eb3a198f1a95c5300328145ee9351986e33d8e4a6651a771a6b930int,
        0x65708ed7e327048d0ffaf0154c2f017f56c3388d2a36cadf0573c668850e67e8int,
        0xcbb7286d5f94cdc144c4695c3d3ec1f1f4ee96d55baf63e943690e3d412799b6int,
        -0x393ef575a720f79022658c6215fba859e14784945683e063034497d4cdec493ba0545addbabe8c2df73f96da12ab8de031bc057cd97beba59cd71ca370e5b243int,
        0x5c124e3e1202e42f15f686c16411c506362e25f8e57dcd51a5c8bb1c7183a61dint,
        -0x397b5abf2ee483b3269c6f4b3cbb39a662ed22e592c99e0e0738be37a92bb8ef39f2e0ec54c0b369c30ffd5642f566447b83f3b90a8365c3deccab8912b67063int,
        0x3524aea339d79a1dbe3991d90d3f70c540bb5e221ed0b5e05f47b751c5d493f1int,
        0x23651ce04a3934824a2fb8aa9b866e54a3708f0e2c56f874bba41561b3d517d5aint,
        0xf6599d31e6a641c32bc2d9ab2a1c7b1e9f88547e9ecb503da5e087c75d25d806int,
    );
    let e = lemma_reduces_square(
        r,
        e,
        p,
        b,
        0x5c124e3e1202e42f15f686c16411c506362e25f8e57dcd51a5c8bb1c7183a61dint,
        0x3524aea339d79a1dbe3991d90d3f70c540bb5e221ed0b5e05f47b751c5d493f1int,
        0xf6599d31e6a641c32bc2d9ab2a1c7b1e9f88547e9ecb503da5e087c75d25d806int,
        -0x244466653c22ecc82f40dfce7f4ac981d7b683fe2e8c23e56f71681d93fbc02dcd23c409a6dede11856f4b9bf90b63ab2f31a0a897c6e5338bbf5275cae0f820int,
        0xcab3e197744d4e9851e39670f5b9a2dc48c10b16d087ee0c866f162f4c867be5int,
        -0x540f4bf7a7082e35f248039f1ee453be165197020d324b7a19846d8d368ebf03d7278f7050e20f6fae3b67515e51303f3fab91c74db46a0806d1dc6ab6e2bf62int,
        0xb393106a0144d808f183de385294993a4b3215e5cb887469f8ebc07eba3f4490int,
        0x3836ce6307693cf3b3d144ec3234ed303a4943b9faf17e429f6de31a4d615d72fint,
        0x71a6d80aefbeca62fd001b0c49b09129e1b71677f881e5952d2162b739ad99d8int,
    );
    let e = lemma_reduces_square(
        r,
        e,
        p,
        b,
        0xcab3e197744d4e9851e39670f5b9a2dc48c10b16d087ee0c866f162f4c867be5int,
        0xb393106a0144d808f183de385294993a4b3215e5cb887469f8ebc07eba3f4490int,
        0x71a6d80aefbeca62fd001b0c49b09129e1b71677f881e5952d2162b739ad99d8int,
        -0x38897e996e779bb71a0f2b8b4bb6343b13b8d3b494f13425e2214ae478c16bfd98abd5a2f2a393534234f1ce44945a00282396daeff529e1bfe1087f82ec2cddint,
        0x13f121ca9196ea322d32c7c877c67a8db038cff66632b79c66af7f1a3eeadcfcint,
        -0x11e4196282dde376941d4f61cb43b2c1693ae855ab8d8a0edaf328ca72487a2396120b9182929a20a6706c8c56c2893035c817f89feb1573b168d0acdec2e5d1int,
        0xbde0bba5583bd54524f3cd91e53bce1c0581d7b93fc7276859edd63b96fb280fint,
        0x1c9502866a9d70781a57991345ffbf7c203aa169271ff16cf23450d71eec1ea80int,
        0x48001e8ad1de9ff3c2911ffb6c4e9afe8f6805caa9aa09a05e688f37bfb53ab0int,
    );
    let e = lemma_reduces_square(
        r,
        e,
        p,
        b,
        0x13f121ca9196ea322d32c7c877c67a8db038cff66632b79c66af7f1a3eeadcfcint,
        0xbde0bba5583bd54524f3cd91e53bce1c0581d7b93fc7276859edd63b96fb280fint,
        0x48001e8ad1de9ff3c2911ffb6c4e9afe8f6805caa9aa09a05e688f37bfb53ab0int,
        -0x25df534932dc1ee10aafb4a0c646a38c6399a19f5351728e3337fccbde7b30cead8b00e435df5673aad175de91b72cbcce32821cc1e9f1b809230c2a19735edaint,
        0xc63f1998e04bdc45ff94d457c9666595e7e7d681a194c476403157762bcfea56int,
        -0x72e33d9ecf2e47baff46396c7856ce863678aee46f28e9903dd4e4149db42f0135defe1a385c9310c2d61596e0ef57b0445d4e93c3bc0e899febed2c7b5fb8cint,
        0xbe87ead92dc99aee94d605540870bb7ed0884c4e44d8ef16f7bcd8feb11598dcint,
        0xd4cd75aa478c90d9288fe694b76ee06dbaa686c47bc744c9c1ad0aecb241e4ffint,
        0x8b7fbce3604a1b59291557ae153d7ccbf5e80c2fb5dfe538d9adc2694c574b60int,
    );
    let e = lemma_reduces_square(
        r,
        e,
        p,
        b,
        0xc63f1998e04bdc45ff94d457c9666595e7e7d681a194c476403157762bcfea56int,
        0xbe87ead92dc99aee94d605540870bb7ed0884c4e44d8ef16f7bcd8feb11598dcint,
        0x8b7fbce3604a1b59291557ae153d7ccbf5e80c2fb5dfe538d9adc2694c574b60int,
        -0x49a10a541c3f8dc5f5b4cf7d3a30254386097e0198c0c04f86f8226ceadfee1b28960b0967e9d721f61ecc01572e74fee5639912589c59ef60f8a8ba87e6bc6cint,
        0x977e5c68402242b2980e5d73662377eaf4af7b42ca1f11fa8e954722f5ac4978int,
        -0x1af43fd77d990d933994fffafdbd5b2ac205347ac7ec438f18a6f743e0e67d5fc0494686c3fe4cc93d19381b8a11667da7ffa75147c9c762a2589c6342bc0c23int,
        0xf0db39d2332abfa8a93f75099b892c9aedd3287c274a86840b9ae84dd2b32adint,
        0x249e84a4e10dcd3b947f23819d6a285c3816d0fe22d27565c01978458b359170eint,
        0x127ff2593bdf97d74b1c9ee08ccfb12767788d763c8268738ba7713854bd649eint,
    );
    let e = lemma_reduces_square(
        r,
        e,
        p,
        b,
        0x977e5c68402242b2980e5d73662377eaf4af7b42ca1f11fa8e954722f5ac4978int,
        0xf0db39d2332abfa8a93f75099b892c9aedd3287c274a86840b9ae84dd2b32adint,
        0x127ff2593bdf97d74b1c9ee08ccfb12767788d763c8268738ba7713854bd649eint,
        -0xc57ee7e794f537422dee2c11843a2eb5afa900a153e7a5f4b2fd78b8b2d4db0dcdfeda5d5b93a3879ddba507e15cafb89c1d239683d91c9681fd804187f745int,
        0x67e30d5912de7ab13e02102f1f2e2542eaa3059b7fc644a63d59685490300f7int,
        -0x795aca634d385aac8ca81dc9c65e7ea904a00735a71fcd96a3a5ba0dafeead2b49d225e8ec0660cd09fe75f3ca9ebf9c63e8c6af3655d80114c404f429f59aint,
        0xe932eaddfa0368ecf0a4b2db151311a0e3143e5e6df1542f590cdfa7f6b3758eint,
        0x1aca890fcfece21a34507e718c5f6a4c75e29a235bbec318e67ac90533d4acacint,
        0xaad9f5ef5eb72120dbe1d5425ed8e20f538673f4526c05ee3e23de3745c29a41int,
    );
    let e = lemma_reduces_square(
        r,
        e,
        p,
        b,
        0x67e30d5912de7ab13e02102f1f2e2542eaa3059b7fc644a63d59685490300f7int,
        0xe932eaddfa0368ecf0a4b2db151311a0e3143e5e6df1542f590cdfa7f6b3758eint,
        0xaad9f5ef5eb72120dbe1d5425ed8e20f538673f4526c05ee3e23de3745c29a41int,
        -0x6e5f296bf8d9a772e1e2e595976248954db22f5ab712967949a388773d2befc9f0e5eca0784d934d2411f27fc99b3f90123aab57ab898a5ece0ebcbbfa4e9edfint,
        0xb0ea91ad1d7e22513e3eaae6109fb9699856c1a26b7b52c7721e18f43ef9593eint,
        -0x286e7722e0acad3cdb07f9bfb47d9b3c2b35e979ba1d85cc34013fe7ad541a1cfd474f801fcd68dbe6dc6b53afffd00676162306a7005c4503d04a5cfc67857bint,
        0xa044e329de82fb9aa9e150c0e2e77e611d60f668d038240e29bf70d2d66a7f12int,
        0x2332afd8d48d5ee3bed545d94e6f3bf98e4b44abf13b077995038b2086a74b2f8int,
        0xc82eabd5512b4f6d54b0023369d20e37025f13a28e582aa4557336cbce7244adint,
    );
    let e = lemma_reduces_square(
        r,
        e,
        p,
        b,
        0xb0ea91ad1d7e22513e3eaae6109fb9699856c1a26b7b52c7721e18f43ef9593eint,
        0xa044e329de82fb9aa9e150c0e2e77e611d60f668d038240e29bf70d2d66a7f12int,
        0xc82eabd5512b4f6d54b0023369d20e37025f13a28e582aa4557336cbce7244adint,
        -0x58e073cc26a8b9b6d39d2616735bd5526aa7a1e0ad7b7f76a66541f87ca2107b92ef9a70cee19c53ee92008c376ebd3cedc42bd8f18928c93519ff99647d3562int,
        0x77cd11561431fa1a95aed64ddb4b348ef0a3168d739397680f4fe9064e698306int,
        -0x378158fc5f7d46c4f3e355e6848dc1ecf256212b8b32fdfccdd47ac95b9ca825700a1df43f2836ba77042f0947c4b6efa528486aa25f8939f857e9da6f96346eint,
        0xf034d791054e7287c7a197182d41e187e8656ee266094a17e3f08f56b5352f03int,
        0x34ea012eab27f81372645bdfc64015405301dc0fcafc82ae66c0d3290940d3796int,
        0x38cb57505f4ceb3e6f8d15a8ad7021efce7e5670b653eb5cf85a3221f72cb961int,
    );
}

/// A power of a root, step by step.
proof fn power_7(r: int)
    requires
        root(r),
    ensures
        reduces(
            r,
            0x1fffffffe00000002nat,
            0xb3e7608dc5edeab50ed3caeb73c75c57eba67f976d2c233243f4dffcd006951fint,
            0xdf1834c0037f70ea76838d45c6895498f5922b13b2cb82c4668185636489696cint,
            0xd425d5f39f8410b7099eb246933f848ce4313e552ea1ac96f39c6d207c1780daint,
        ),
{
    let (p, b) = (
        0xffffffff00000001000000000000000000000000ffffffffffffffffffffffffint,
        0x5ac635d8aa3a93e7b3ebbd55769886bc651d06b0cc53b0f63bce3c3e27d2604bint,
    );
    power_6(r);
    let e = 0x1fffffffe000000nat;
    let e = lemma_reduces_square(
        r,
        e,
        p,
        b,
        0x77cd11561431fa1a95aed64ddb4b348ef0a3168d739397680f4fe9064e698306int,
        0xf034d791054e7287c7a197182d41e187e8656ee266094a17e3f08f56b5352f03int,
        0x38cb57505f4ceb3e6f8d15a8ad7021efce7e5670b653eb5cf85a3221f72cb961int,
        -0x25cacd69178be53015d4a5bfff85569013df7125c5234937f6e227463eea88a8ebaf7342a604250d0d9beab6c850e28a95d4dd2b26c8440a6ce2905e97297fc0int,
        0xaa1ba8e6aad7bcd7434ddd336ca6039407793a3d4367d76f5327abc1ccf63de2int,
        -0x477c0c8120742812c95ae8244dd80ec9676cc63abf7c1103dab458ed8d594bb66d54b58e108d0dc280afaccd953daecfc63b05f72ffd17f80495924871d18f5int,
        0xd108853c1decbd239f7adf0737c95f290e466b7f318502933eac98987314576int,
        0x13c57eec5740b12333adbb0028e5afe01680b3b3bd10eb4b4818dd88d34bb5a29int,
        0xa5201bd90b9eaa235d274bfec6f418afe1d479fe2e6c07126b88787cc4bf6f01int,
    );
    let e = lemma_reduces_square(
        r,
        e,
        p,
        b,
        0xaa1ba8e6aad7bcd7434ddd336ca6039407793a3d4367d76f5327abc1ccf63de2int,
        0xd108853c1decbd239f7adf0737c95f290e466b7f318502933eac98987314576int,
        0xa5201bd90b9eaa235d274bfec6f418afe1d479fe2e6c07126b88787cc4bf6f01int,
        -0x5f9e597fb824c3a934f9b57ed1d9b3f26298a09f80052b11cb0aa311538f224f070cf1f32b0faf24795db6dd04f9d2c6b77bb0cf6fa9376c99c3187c0722004int,
        0x28a7c7f331735f04a2da4ebce9bc4fd00e52841ead99f391a54f013c89438c5cint,
        -0x25c44fcce78d79611472ac9bf01a412bc811e1e18e94ee90d81a07a7a9ff6cffb9b914d227c1e5bc101587327b3b88743835e53fd2372b294a904ddb47ab16d0int,
        0xaed003ac1dcdcadd514a9de9f2924344113834b136364c4497859c89c265fc01int,
        0x21ba43a58111009db8ba70cb3b63d06fcc79635d36fa1ba702714b12a7429d407int,
        0x66ed63f68ccc2d374f8882a9361f3f3b99c4578bfc1d6527fe59f4e12fe0b832int,
    );
    let e = lemma_reduces_square(
        r,
        e,
        p,
        b,
        0x28a7c7f331735f04a2da4ebce9bc4fd00e52841ead99f391a54f013c89438c5cint,
        0xaed003ac1dcdcadd514a9de9f2924344113834b136364c4497859c89c265fc01int,
        0x66ed63f68ccc2d374f8882a9361f3f3b99c4578bfc1d6527fe59f4e12fe0b832int,
        -0x31d827dda61c81f354eb261d8374bd3562e70ea171b7fc0c70818203514466996447bb8b769085e3286fb39c73e2e1386770b0e48b99fe771e49c30fb07fad3bint,
        0x92deac40747facc95daca0f620ab27d7f27056070f9a33827edaaa33c830d689int,
        -0xeac8143ab3146319ac23f84101e80e4b6da7959a75e03de80f6b8ca34bd28db48ae85796cb57e2c73bdb59410892b88a27941fb931f6e9776d3cb85b93c30cfint,
        0xc41c2b7d635808ed46aa4e2028bc64df8b3d460689974b0e9a77033942fcaca9int,
        0x114369f233d30926e8095958e1784454c05beaf37548d6da00235b02d18f063c1int,
        0x81fd872c5a3855b1b1e02aa2455057451a1163bbd598185649f81c9b370b2cfeint,
    );
    let e = lemma_reduces_square(
        r,
        e,
        p,
        b,
        0x92deac40747facc95daca0f620ab27d7f27056070f9a33827edaaa33c830d689int,
        0xc41c2b7d635808ed46aa4e2028bc64df8b3d460689974b0e9a77033942fcaca9int,
        0x81fd872c5a3855b1b1e02aa2455057451a1163bbd598185649f81c9b370b2cfeint,
        -0x469e8d8204f3b61304ce25b6f0d3f50146fe3568afea9b8f1a81277dffe0df29b0e9f067bdfe3c88be9c07f0a2f5087475aef384352f85af4236ed9ed992d7c1int,
        0x8cfe8eee18bd8fd1825deed9848313c4e1ded0523b7ed84e01a89b177a4459cint,
        -0x1767a11702c48d8fbf7ba3a39ee9bdc3245759d3326c6234a57f7763a79494251aba9d4a037a52fc3bb4bbff8f5eaf1fa255b13c16b4a19acd9ec8ab7a5b04dcint,
        0x4cde0685bcdc2c551d6aab43109df7df7793ca34a52d252ac414f88cc200b4eeint,
        0x1f166ee741ec6e431da27af7b1150248a0f73531426fe35200707bb910c40fd58int,
        0x47151361b480612b7e5ef616399e015bd7e3efce015d48fbe4a4e14a071038d1int,
    );
    let e = lemma_reduces_square(
        r,
        e,
        p,
        b,
        0x8cfe8eee18bd8fd1825deed9848313c4e1ded0523b7ed84e01a89b177a4459cint,
        0x4cde0685bcdc2c551d6aab43109df7df7793ca34a52d252ac414f88cc200b4eeint,
        0x47151361b480612b7e5ef616399e015bd7e3efce015d48fbe4a4e14a071038d1int,
        -0xf22dbf8b2af69e1de4c4021c0c9ebd4b8b97fd78398334a2cdb1ea10babe636701062b3a9e178bc7d784abb4345fe1cc0bf9ab4e2b3978e64505f9a5b0e04c7int,
        0xd0e1629aba3a86e8ca0e42c49655689a0057323f0731bdb0207d7fb5a87ec095int,
        -0x6ff9ed892cf01ce9aad82f083d9a4db44f9fa98a11d503520a09e625c12dc2971a06bb8d512526c9a7d6570d93794523144fe79d9cf3d57fdf5fe114da93575int,
        0x423de1fcc5cf879c5427181c4710e7cec4f14e34faf68992820e8fc43fb01144int,
        0x572f728a8327748d00190bcb843d78ad14b6e0a87b7753b1d1a14afb67d2ff51int,
        0x9e2bd9d2b3ecb509d8d44d750e6384ac76244601e3956e4b20589d0cd214c530int,
    );
    let e = lemma_reduces_square(
        r,
        e,
        p,
        b,
        0xd0e1629aba3a86e8ca0e42c49655689a0057323f0731bdb0207d7fb5a87ec095int,
        0x423de1fcc5cf879c5427181c4710e7cec4f14e34faf68992820e8fc43fb01144int,
        0x9e2bd9d2b3ecb509d8d44d750e6384ac76244601e3956e4b20589d0cd214c530int,
        -0x1d0665dbba046cb7774086acab2435b67d36246d3331409bab35c3778e05b491133a6ba5567a4cce461f7df3e44bac0dc857fe4f4f9c14c400cd7db9505a8d6cint,
        0xdcc1530079c2406d9b333a7387cd80848b69916a9ea8f222933a8bf6d5e478cdint,
        -0x22a71cbc6c4c4112d55d5a793f637b0290af40c6b12c4d004bde56bd770aaa72e9112421be3821453a9d3a662bda4ac54a2e07193282b1049b5cde41e9953faeint,
        0x6532545341be99ff92b86f619e7c024685af0c70209882231973f6bb2c85fafaint,
        0x23870358b0b72ae9b1de9397c54a0915c85baf23c1ab08324afc63598bd436d3bint,
        0xa1413555ca16434eac5062bd566ebebc188b7e0b252d68a2648ba593394bcc2bint,
    );
    let e = lemma_reduces_square(
        r,
        e,
        p,
        b,
        0xdcc1530079c2406d9b333a7387cd80848b69916a9ea8f222933a8bf6d5e478cdint,
        0x6532545341be99ff92b86f619e7c024685af0c70209882231973f6bb2c85fafaint,
        0xa1413555ca16434eac5062bd566ebebc188b7e0b252d68a2648ba593394bcc2bint,
        -0x2d349aa801e34e565c4362c547662527a157e1fd4dd55140f6f66d383a33fc7a92033be3a0cba44b6e9b0a9a11ea3884eeaf8cea23a0aec721275f2373b51f19int,
        0x85991ad5997fc291790851dfb864173e005b3eb4068ba755f931c245f230f63cint,
        -0x24045ac0edf813b12d6db7e4dd19aaec604efc8ca16a9d4a84454f3bcf08b39ebd488f0ea90a292587547bc2eed2c3d1e6aa98294fc4ebf9c4e4fb3000de4e70int,
        0x4492c3182a701fd3e48bf6bbc8387569e8e90468fc56ce6f3342c22de762f035int,
        0x26ed5a216084532267c678cbb8ee83ad0d439ef8453be7b7bbba0538cf71abeebint,
        0xb6d725b814a00ff19044160e3e8e6a4dbe5dde9b337907f968a87e50f064f598int,
    );
    let e = lemma_reduces_next(
        r,
        e,
        p,
        b,
        0x85991ad5997fc291790851dfb864173e005b3eb4068ba755f931c245f230f63cint,
        0x4492c3182a701fd3e48bf6bbc8387569e8e90468fc56ce6f3342c22de762f035int,
        0xb6d725b814a00ff19044160e3e8e6a4dbe5dde9b337907f968a87e50f064f598int,
        -0x40d5341f6e61128aca275b6b024dad0abe8c8a2989a8feb7b75b377defd30f8aint,
        0xce805686656e4393699f7782823a2058f3332d7d2843d8a7f291bd9a27cffceeint,
        0x2int,
        0xaa1e8bffd75ff26429d4940a740f56273b74da83a0f6bf42332b3d38c35fd706int,
    );
    let e = lemma_reduces_square(
        r,
        e,
        p,
        b,
        0xce805686656e4393699f7782823a2058f3332d7d2843d8a7f291bd9a27cffceeint,
        0xaa1e8bffd75ff26429d4940a740f56273b74da83a0f6bf42332b3d38c35fd706int,
        0x4492c3182a701fd3e48bf6bbc8387569e8e90468fc56ce6f3342c22de762f035int,
        -0x2050f7f370866c01541d9cfa053474610c881bc9e79a3b1b99dc6ef0152384b60bce900a6746331cb0c26149f3281d29062dba0b06a35f2ee9b291fb91611bd1int,
        0xb3e7608dc5edeab50ed3caeb73c75c57eba67f976d2c233243f4dffcd006951fint,
        -0x6835f6ffffb4168e07317a06ca64f7adec9d02f708349b5193d29ba0369edc200bd6a06e9eea0a4b0403dad4bd97fff9aa2227ac3ab6bffa845c069042d583dint,
        0xdf1834c0037f70ea76838d45c6895498f5922b13b2cb82c4668185636489696cint,
        0x116c86c066d3dc8a047fccde56204b433b585033fa9e6b60ac73be4171c8d313fint,
        0xd425d5f39f8410b7099eb246933f848ce4313e552ea1ac96f39c6d207c1780daint,
    );
}

/// A power of a root, step by step.
proof fn power_8(r: int)
    requires
        root(r),
    ensures
        reduces(
            r,
            0x1fffffffe0000000200nat,
            0x3425f2288aee2a6ce85e4c671e90fe666446bffdb930e511826faf4a7e2158b1int,
            0x2a50e8b1a6d8fef827dfaf468cac1e8a7eaf95f4c6dcf8c9b12b1c0feabc9f3dint,
            0xc417c8c93aee4916cfe6c8fed3d70a24cdf3bdb9a78f84613d200107175e6c41int,
        ),
{
    let (p, b) = (
        0xffffffff00000001000000000000000000000000ffffffffffffffffffffffffint,
        0x5ac635d8aa3a93e7b3ebbd55769886bc651d06b0cc53b0f63bce3c3e27d2604bint,
    );
    power_7(r);
    let e = 0x1fffffffe00000002nat;
    let e = lemma_reduces_square(
        r,
        e,
        p,
        b,
        0xb3e7608dc5edeab50ed3caeb73c75c57eba67f976d2c233243f4dffcd006951fint,
        0xdf1834c0037f70ea76838d45c6895498f5922b13b2cb82c4668185636489696cint,
        0xd425d5f39f8410b7099eb246933f848ce4313e552ea1ac96f39c6d207c1780daint,
        -0x831c811bc27b1e0bd71d4f93a137d072ffc85aefc8b65604ef4695da73fe9dc55983fc78a64954f0d49e3c203dc892ec6c4b3a2335dbd81d0a7c9128f4b75361int,
        0xab2b029e0ea20cc5010f19ad209944e0b0c0b1a2d162497224fc317a93edc710int,
        -0x3e56c8b25c0f9b554258f3644e7f3b17cab149ba2f4ce85ea84cfd1b2caac0a326ea2cdfc9d1260f4abbea42faade981e03855487c1ec8d3589c4e1b82374ebeint,
        0x677b64db27b235caa85b53f7814284f5e550767b4f697d770fe0da89874cb22eint,
        0x3fc03a38fbc32dd1b9599eddaf138032de69feaaefbb82ae617df3424c3cb30ebint,
        0x2fd6084f9970344a4bc9d7f902f052ae08cb388573534dbe94be383ba0c81c33int,
    );
    let e = lemma_reduces_square(
        r,
        e,
        p,
        b,
        0xab2b029e0ea20cc5010f19ad209944e0b0c0b1a2d162497224fc317a93edc710int,
        0x677b64db27b235caa85b53f7814284f5e550767b4f697d770fe0da89874cb22eint,
        0x2fd6084f9970344a4bc9d7f902f052ae08cb388573534dbe94be383ba0c81c33int,
        -0xdb688633120f641e573e7ab9f919acc1c73c6d33d3199845fbfb798027aa81f6b87a9760ac5ceb222dce4995d7898bbfaef3ede54b2e994b0be6e77d8decdb0int,
        0xd71262da644abd256e2331bfd88f45925dea78dc2dac8611a7a329de677c60b4int,
        -0x32b65be3fa3ee2b5c79bbac5f663dbadf8973d4638f236645a37955ba09163f8dad1c2d7e3d6de19f4218e9c18432095465d5f03b64f2803eb86632bc541c4cint,
        0x5e186ffdae0e663df6729d89132f4c210704a9f8eb376482b251919194b3c66dint,
        0x849d669bdb7a37ee7d623d0cfee840872b47d618480209f04b5e84cdb486642aint,
        0xa0633d79db08b8c82ebbfc63f86c95571b48be26a16c5c687ce35f67f584cb49int,
    );
    let e = lemma_reduces_square(
        r,
        e,
        p,
        b,
        0xd71262da644abd256e2331bfd88f45925dea78dc2dac8611a7a329de677c60b4int,
        0x5e186ffdae0e663df6729d89132f4c210704a9f8eb376482b251919194b3c66dint,
        0xa0633d79db08b8c82ebbfc63f86c95571b48be26a16c5c687ce35f67f584cb49int,
        -0x29ceace14e1228c91b5d3887313307917e1b87ceab4800b3dd82090357b8305f18632e0ca70ac7bac83751cb7a7faf1bbe50c0a9859b30a2c5f1ee26f20273a1int,
        0x30798c8b4f084c2bb381aef9d025149b879b8ae93959fc7d81c2e04c3f7ee6a1int,
        -0x23a1773d09b56cb9846cc3891b29502d9b2bbe4ec565c4bb9bf1c6efe33cfedc29c3ae318fb126a27ee6af0e1335f3f33b6097bab4768d820a57ed810e1058aeint,
        0x9c47a24e3269e94083d53f4ead5b7175e563e6db2417bc7c9886d697948c0dddint,
        0x25d88499d951eed48448aa0c8bee8e866094dc610731d1f4e61803d5592af1f06int,
        0x8abb4c879d91a0a940055d1b05966e9f15cff68e08ea8e1d7f3b43d534f5188aint,
    );
    let e = lemma_reduces_square(
        r,
        e,
        p,
        b,
        0x30798c8b4f084c2bb381aef9d025149b879b8ae93959fc7d81c2e04c3f7ee6a1int,
        0x9c47a24e3269e94083d53f4ead5b7175e563e6db2417bc7c9886d697948c0dddint,
        0x8abb4c879d91a0a940055d1b05966e9f15cff68e08ea8e1d7f3b43d534f5188aint,
        -0x3c0f914bffcb7956d9c87ddb14001d109fb47c1d11aa64ae8d9141b42f7456282ad5f1347ad5d8d8e69892dd9ecb10d434c70ff81011976c1a4974b7db4b54faint,
        0x1f30b3d6e2b09e1caa5e4df6d731108bfb8c7e9201db89f681545df1b11a125bint,
        -0x1aa88bc7b7a58458199e7e016a17c346e5fb700f521e3ffda101f79443e7e905d4c3624f0215dd657832c140f43c02f79db54ba0074ff70240b476897b11664dint,
        0x40da648cbb543df18e494259dd5651fdea7d37f5a5442870cb7d7f1f3c78612dint,
        0x1757cc2928de678645bd236df8922e1fb5f291fcb762bc84a74a4e08970c445bdint,
        0xfe04106c29222d7f5b5ae22b9838e38a91eb2f4eaa7080e01462e14f5aefcb46int,
    );
    let e = lemma_reduces_square(
        r,
        e,
        p,
        b,
        0x1f30b3d6e2b09e1caa5e4df6d731108bfb8c7e9201db89f681545df1b11a125bint,
        0x40da648cbb543df18e494259dd5651fdea7d37f5a5442870cb7d7f1f3c78612dint,
        0xfe04106c29222d7f5b5ae22b9838e38a91eb2f4eaa7080e01462e14f5aefcb46int,
        -0x2da2bac27f95809c16e4f6becea6c4a2514d76fe54b7ba73e0a0414bc8b665ed2c765b85dc9f6d86d465e0641ec7df08cd5f5cf0e3489caab1d29dead7956676int,
        0x899980e0c555244fb35a1c9c93a568a154da033a26785210ea94a8005d76c22fint,
        -0x595f6433cf425f7737508006b48a31677f74963d30f99bd5a6eab58ce1f25ae39ab373080a5e7c6d0edd28f1d1503955e221a4cf8e0a7fe11bf40ffc11ea11a6int,
        0xe556051efd8e5911030d327ee0396997f88c8efe665fcc2df4da47d1bf298a0int,
        0x34277c0f2f3a1ac3895c2f096a42b2b1ad0ded687deca6fc44c75a35c4bd08897int,
        0x76f285d641478216c7703d0e5ce74bc6c7d05ac923ce8996fcdb6b724a804bb0int,
    );
    let e = lemma_reduces_square(
        r,
        e,
        p,
        b,
        0x899980e0c555244fb35a1c9c93a568a154da033a26785210ea94a8005d76c22fint,
        0xe556051efd8e5911030d327ee0396997f88c8efe665fcc2df4da47d1bf298a0int,
        0x76f285d641478216c7703d0e5ce74bc6c7d05ac923ce8996fcdb6b724a804bb0int,
        -0x4b917e205606f34bea6d9ee2605fe8a60e22629497a99566da163c594ca3a37e6f846e327821b9df5d023579dd592656e1509d80f5143544d0ed0b1714255ecint,
        0xc8e05105048906f542c5951f9666444c7440f00927e04f51ac008ded07fa3ab5int,
        -0x1398dd2bf6650aa1b6e09452bd4808a6b89488d84c359ceb56842eb810ee1e58077fc35f05aea80064d9c5e22d1cbdfc8fb2dc0f3accca10e7102d7a8ae74edeint,
        0xade851f39b779cecd4e0478224237674c5d701bd996d9bde168525665a513ce2int,
        0x12679175262a20d15c3f13284c89a39f1eccc8bb9e97245ccdc82b309b6c01aaaint,
        0xe54af88896363768f183d558f39bf5889982e9b87770f4cebf0a41ee6772d44aint,
    );
    let e = lemma_reduces_square(
        r,
        e,
        p,
        b,
        0xc8e05105048906f542c5951f9666444c7440f00927e04f51ac008ded07fa3ab5int,
        0xade851f39b779cecd4e0478224237674c5d701bd996d9bde168525665a513ce2int,
        0xe54af88896363768f183d558f39bf5889982e9b87770f4cebf0a41ee6772d44aint,
        -0x6e76d6d4d08275f981a83cf9384c7193e1abdfb9655b795efb384391cbb0d2215e46c56ed55ffcb165185cfbb8127f58d004d7a1182eef7c0fb8edbde0b80cbcint,
        0x90fe8ae8cf10de78c876148f6bb9507cdd78cff6d45f5c8edd711e464c263005int,
        -0x48d27c08d34af9ceea330a9f5c8562a25624ddd57493a222d055f2e1915265dd73bf54cc1228c740d7b1249b00a73e584cff29e73e7ea23a9f300d6dc3082142int,
        0x1984f0f5aceac9b82d27664093a6bfc53918912725d7241de7a32b6fd7f2f1feint,
        0x446186e11e903c09ef01a51200c33450808cba9c20a7ab6d8a9f200d5a86f9cddint,
        0xa1a630dbdafdc6b43bc066a52b064dd268aaa5237c364ee9e9ccf4310cdffd31int,
    );
    let e = lemma_reduces_square(
        r,
        e,
        p,
        b,
        0x90fe8ae8cf10de78c876148f6bb9507cdd78cff6d45f5c8edd711e464c263005int,
        0x1984f0f5aceac9b82d27664093a6bfc53918912725d7241de7a32b6fd7f2f1feint,
        0xa1a630dbdafdc6b43bc066a52b064dd268aaa5237c364ee9e9ccf4310cdffd31int,
        -0xb6d774739c6dac11af74b522859038fe38c351835efafda70d50c6baf34f6e2a4c98321434e801ad6ab48c9723efb6277605f247aa70ae0059fbd94aa1eb0d4int,
        0x3425f2288aee2a6ce85e4c671e90fe666446bffdb930e511826faf4a7e2158b1int,
        -0x243185000649e448e09886b5abd816eb00c9d8a03c550a501265548100ff8fc68dad0f3fa8974f0f9ea626bbb348c7542705651c7553a68bb21ab491ed0024f8int,
        0x2a50e8b1a6d8fef827dfaf468cac1e8a7eaf95f4c6dcf8c9b12b1c0feabc9f3dint,
        0x1ebdf08509189a83b3c0e93263d903eae0858f5b382f44e91ef41ddf03ed04630int,
        0xc417c8c93aee4916cfe6c8fed3d70a24cdf3bdb9a78f84613d200107175e6c41int,
    );
}

/// A power of a root, step by step.
proof fn power_9(r: int)
    requires
        root(r),
    ensures
        reduces(
            r,
            0x1fffffffe000000020000nat,
            0x5b81957889b524a7f59413d340e5af1387c90489b7b72536533fb8d9c8745478int,
            0x6034e513e2cec39ec018521a4b00122af7a6f33038d1cb71fc977401f453ec3int,
            0x5c88de862374ffebbe68f2d70adabfb238a29fd070cde03785c809f082f097f4int,
        ),
{
    let (p, b) = (
        0xffffffff00000001000000000000000000000000ffffffffffffffffffffffffint,
        0x5ac635d8aa3a93e7b3ebbd55769886bc651d06b0cc53b0f63bce3c3e27d2604bint,
    );
    power_8(r);
    let e = 0x1fffffffe0000000200nat;
    let e = lemma_reduces_square(
        r,
        e,
        p,
        b,
        0x3425f2288aee2a6ce85e4c671e90fe666446bffdb930e511826faf4a7e2158b1int,
        0x2a50e8b1a6d8fef827dfaf468cac1e8a7eaf95f4c6dcf8c9b12b1c0feabc9f3dint,
        0xc417c8c93aee4916cfe6c8fed3d70a24cdf3bdb9a78f84613d200107175e6c41int,
        -0x16fca358ea158371e0d7804f55912491f6327fe19d7913e605d8daaf21c7553269b6c6e62de2a9da219700433e8c4b63e0d9bcf7e5aa6a755d10485f0806a3daint,
        0xff9e8d788e4f7353bbe9901dff88fcdc616d1e0f076831c56d8472d63efae149int,
        -0x3542bab2b5eb67537c4728457bd66aebd67d99baf3cc8006ce5aec0fb10b6c46c195d7deb126c41c2c8c9e62d41129e0200cc8f77be2d3e06b2b636ed7d87542int,
        0xa184239662f571ba056d585186fcf8131c09ea68f2641f1ba5f3149003a42e3bint,
        0x2197fba590068bcdb528f244f6764560aee131a8375602d3cc826beb0a8f1ce5dint,
        0x8132c061e9856b45e431a95893fd7545a99563a06536c5aeb2c06dc7a3dfbe4bint,
    );
    let e = lemma_reduces_square(
        r,
        e,
        p,
        b,
        0xff9e8d788e4f7353bbe9901dff88fcdc616d1e0f076831c56d8472d63efae149int,
        0xa184239662f571ba056d585186fcf8131c09ea68f2641f1ba5f3149003a42e3bint,
        0x8132c061e9856b45e431a95893fd7545a99563a06536c5aeb2c06dc7a3dfbe4bint,
        -0x39cec2f02bccb120d807865b27cd80d64a9cc9a9f914d156bbea3e13d068df1d3a690dbbe0293c06fdb90972c34038f3259ad7e3c06f5edafa7ac753b1ad1022int,
        0x915d70db95c86ec349bbcb59e0a07888aaf9f618bb0905a1914f32fdfa879de9int,
        -0x171ed4ef6120871c51786c483a3f87bdd3312d6606761ec6b85b85d0aadd41f921db2c868b6155a1fbe1a94fbcacc2f336a75d68037c79eceaf7aac0f5ab0439int,
        0xb225dd8340999c305567c27b22a374553d34baed2212f5917f9c1af441afa330int,
        0x22b872d8557c143887bd7793c39bcf441863e5fae6b149b5a56a669f44414c0f3int,
        0x70e2ba28c159421174e46a91fb8a161783434ad13996a9bfed71069f6cf49d3dint,
    );
    let e = lemma_reduces_square(
        r,
        e,
        p,
        b,
        0x915d70db95c86ec349bbcb59e0a07888aaf9f618bb0905a1914f32fdfa879de9int,
        0xb225dd8340999c305567c27b22a374553d34baed2212f5917f9c1af441afa330int,
        0x70e2ba28c159421174e46a91fb8a161783434ad13996a9bfed71069f6cf49d3dint,
        -0x37b5bb0794a51f2f9c711e249f33d660e0e96e1417cc0d8e855400b3ecff6b7ba6148e3d64f9079875a20d950a8a79206a056e62d5d3d21c91f60795b7bc9069int,
        0xe6b5709f32675271324a2bae6bc38a88b59efc9cfb4837575fefd3f7ebb0c008int,
        -0x11a68fe068944d4bfddf3bca53d62e1e844ac4462f842644dd5da480a78f76bd1a53726dab5e10d9ac9827bf559c957ebff66b10fb77d9354a178a34633c39b2int,
        0x797771b6717106ff8e0cc33d7945d22294b9aa5cc50102ea080c992f47597a2bint,
        0x191816fddf8063e1b1851b7dde659c09a3e674952320ef6f63693dfc73441c04aint,
        0x7127040849fbbc895580109e330672f4bbf139532ca26971319eb6b22ef495efint,
    );
    let e = lemma_reduces_square(
        r,
        e,
        p,
        b,
        0xe6b5709f32675271324a2bae6bc38a88b59efc9cfb4837575fefd3f7ebb0c008int,
        0x797771b6717106ff8e0cc33d7945d22294b9aa5cc50102ea080c992f47597a2bint,
        0x7127040849fbbc895580109e330672f4bbf139532ca26971319eb6b22ef495efint,
        -0x26130d99e1b936f91f3a732e758bf64816c74a26f226658bc353015f46e10b7a9b45d9ea5460d6b85ea0f7ad2620acb241de5c6f640fc6c30169375be4412410int,
        0x80461aef9263b1e6978ca05d9d91db95001c3e19f74f5bd9cdeef6eab06eb882int,
        -0x11bbf1371709c5a2e8044c7299a4e4e210baeb27bc0ccc308e3204dddce828e5f485774522c4709b8466890c5ff8353e733ede4849d126fdbfeeb9a7f2540ed7int,
        0x28b5cebf6c5e7fc1c49dfbf99e52456660726c661bfb658cca3c706711e8020cint,
        0x19b9f07b917e6d261b6db8a0409cda465c52d455fadb483bc7d273c84363dcc5bint,
        0xe5416294d1235a13e864875c5d6c959d9916ea720453f872815745732178ede7int,
    );
    let e = lemma_reduces_square(
        r,
        e,
        p,
        b,
        0x80461aef9263b1e6978ca05d9d91db95001c3e19f74f5bd9cdeef6eab06eb882int,
        0x28b5cebf6c5e7fc1c49dfbf99e52456660726c661bfb658cca3c706711e8020cint,
        0xe5416294d1235a13e864875c5d6c959d9916ea720453f872815745732178ede7int,
        -0x19dabdd6ed0b9038a85ffea25bd17e06e3f5a5e557fa29acb36289371777f1699348619ca58c9af5b25ed50848837bc2f03992a8dd3269146cae7c17a31ff602int,
        0xc0182e8d4d13c56febf4086a882b4e7057a41c65a3156eb8d21be4aad180b7caint,
        -0x48cc656fe5a11d84d2f69e99330d90f097748369defdf2c35619bb58b3ca7a6cd0cccb630d48563f5d9f3eaba62a4d3c573b1e498b8c0ae2f4e94238ee956c4aint,
        0x374b514001ea409e2d2492a28e47c7d1d420042ebb37c2c21fea586f49ece1c3int,
        0x3542265869b90233a718d5ae7ad506f95e0656e11708dd81bbd918b0d50906888int,
        0xd5219b4882c076e81ba462164e249c19122d282af33c33eb1f00439ee096db07int,
    );
    let e = lemma_reduces_square(
        r,
        e,
        p,
        b,
        0xc0182e8d4d13c56febf4086a882b4e7057a41c65a3156eb8d21be4aad180b7caint,
        0x374b514001ea409e2d2492a28e47c7d1d420042ebb37c2c21fea586f49ece1c3int,
        0xd5219b4882c076e81ba462164e249c19122d282af33c33eb1f00439ee096db07int,
        -0x20a58fb567216dea044979d387b1b73f4205e9874e568d091305ed37e5172eb4ee5892453aec65670fe7441b1e311c3142784e106b8fc19dc6826debc9cdefa9int,
        0xc848034432710142ae55347ba847d69736456f99352869cb20c94a3a469e4bedint,
        -0x3eeb175634c57a6de2585a062a816f619fecab9c5b4dd09492b0dce12d940c22b640480e0835b5014c838a36ba32d5da0e06cde9c0203e7285e6edc050e0deadint,
        0xf1adcbb3922804d34907699735d8ef7a2d232dbd81534899244b5afe731676b2int,
        0x3601ef24304845c06614744f51ccb7b23e5a768b4ef3c985df4ebc9141eed5f4dint,
        0x688a5e7f3687f66934bd775a02b68458282138701f679158efb7d23be28e5175int,
    );
    let e = lemma_reduces_square(
        r,
        e,
        p,
        b,
        0xc848034432710142ae55347ba847d69736456f99352869cb20c94a3a469e4bedint,
        0xf1adcbb3922804d34907699735d8ef7a2d232dbd81534899244b5afe731676b2int,
        0x688a5e7f3687f66934bd775a02b68458282138701f679158efb7d23be28e5175int,
        -0x45fd719e2d8c332f74d2c123acd1ce4372e5e4c4047a1981653558cd59b11cbf9aa9dd1d857e64dd5c6d0785adfdf2b726881620bf23c6d3ca85cc41714f7fdcint,
        0x9a57bab545f329649fab542da6bb66d311d9e70961931ebd98c2ca4b8c8ed1int,
        -0xf232e31dcf15b546bb9ba9903ba45c5886cba93ca2674babb94cf599fd468ee1a97092de194d6d73bc2f84cf65e806024054c03692bd76991694fd30abe20bdint,
        0xb7903eec497c313c7ddb76f8678fd88dfff9b22a8502d6da237683da88b66080int,
        0x207cdda62127a73ebc7b710acdd4751d4e46303d8d34d25286537059542781698int,
        0x545d470d0457e74bb3a1fd9f5ab97c97fd14a22cfb384bf028fc8ee456e7c969int,
    );
    let e = lemma_reduces_square(
        r,
        e,
        p,
        b,
        0x9a57bab545f329649fab542da6bb66d311d9e70961931ebd98c2ca4b8c8ed1int,
        0xb7903eec497c313c7ddb76f8678fd88dfff9b22a8502d6da237683da88b66080int,
        0x545d470d0457e74bb3a1fd9f5ab97c97fd14a22cfb384bf028fc8ee456e7c969int,
        -0x2ae66b5b0084869dcc9e90a31719ab026d1169de65075dc4a960c72612b22d81ad83a9c616477b27c81e4a12cecb264c1f33abdeff3cab2e2c4a6e1d65d82f29int,
        0x5b81957889b524a7f59413d340e5af1387c90489b7b72536533fb8d9c8745478int,
        -0x9dbb7d2e660391d89041845dcb4ab885599f69ca11ae38896cee90237dad366a39d70da4d517d85ef17b12b2fdf41dd973d1e4d9070426d7f53362a97a69942int,
        0x6034e513e2cec39ec018521a4b00122af7a6f33038d1cb71fc977401f453ec3int,
        0xd76d4f212cd55bbf2222f33755c72c3887aa877b0465c5adc28086595bf4d74fint,
        0x5c88de862374ffebbe68f2d70adabfb238a29fd070cde03785c809f082f097f4int,
    );
}

/// A power of a root, step by step.
proof fn power_10(r: int)
    requires
        root(r),
    ensures
        reduces(
            r,
            0x1fffffffe00000002000000nat,
            0x6248ffbb1c7b50821a34f9894b972282c31f0c83342b66c3a7a368e28a3c49dbint,
            0xdf53154e869916ba91c5840d561cfddd948894a4ea4efe678191de13d77ae7f6int,
            0x700341932cbdff2030b14b545ad2708adb5fb150f9cb38efaabef81ebef6e874int,
        ),
{
    let (p, b) = (
        0xffffffff00000001000000000000000000000000ffffffffffffffffffffffffint,
        0x5ac635d8aa3a93e7b3ebbd55769886bc651d06b0cc53b0f63bce3c3e27d2604bint,
    );
    power_9(r);
    let e = 0x1fffffffe000000020000nat;
    let e = lemma_reduces_square(
        r,
        e,
        p,
        b,
        0x5b81957889b524a7f59413d340e5af1387c90489b7b72536533fb8d9c8745478int,
        0x6034e513e2cec39ec018521a4b00122af7a6f33038d1cb71fc977401f453ec3int,
        0x5c88de862374ffebbe68f2d70adabfb238a29fd070cde03785c809f082f097f4int,
        -0x18a961cac7a0d876d03b51d93c7814fbaf95622cfeb2b6c054ae39ef27392f36baf786f32997599121b6b30d2337b49fff04ec76ab9e6d28f87f50bffcf3feaint,
        0x387d6a7651cbab0740a67633b86d09573e451131e419fef16dbd5b925604d36eint,
        -0xbdc352c4cb168042d1a4cd1ae26fe9c94e2b47754e007995b808bf5252f5ddc6ccaff739edb5230be1272d3b0bf3b8da47e23db8c4565f4f2c7c0287a7993a8int,
        0xe3da0f6222e4a290ed4adeb42209e91fa44fc30997dc2d1cd74074d195ecda20int,
        0xa6a31f4247017a4302eb0396892b8f48e22ee7241032371dc6e296ec21ee0b60int,
        0xb996ac6c3bc0bc7acdf2a3712817ba0299e1c24754f848f8e0f91eb515eaea59int,
    );
    let e = lemma_reduces_square(
        r,
        e,
        p,
        b,
        0x387d6a7651cbab0740a67633b86d09573e451131e419fef16dbd5b925604d36eint,
        0xe3da0f6222e4a290ed4adeb42209e91fa44fc30997dc2d1cd74074d195ecda20int,
        0xb996ac6c3bc0bc7acdf2a3712817ba0299e1c24754f848f8e0f91eb515eaea59int,
        -0x75249db54ee107bc83a2584b8a51adfed89bdb290533428b45b267a99ec0776f074f3459ea70638b1ec3793f85831b7ba1d6121e95a4dcb23e4f38aa030c8ce3int,
        0x4585d68b53a92ce1a9c8ecbc4933613fc90176a7907a2cc60b5acc523ab795a1int,
        -0x2fb51467c21bb478b35d6b94c3da668cf5f8b7923701b358421bbca002dd29373299729c5b8251b712cf563e4758e7039afb5251901d8df6fb07d2b67a5a55b2int,
        0xb7d7fca8c5190cf860d5fb177c40ef0c328ec4bf5f6567ec1a05cb8dd3902ff3int,
        0x2b0558da1d2639dfe425d97994c84b5093e1beca843f8c3f7d98ff1ebd954cadaint,
        0x585d4f7e3520ac62f4447add504892bcd25620368fe0e8cbf73288e0c2d7e229int,
    );
    let e = lemma_reduces_square(
        r,
        e,
        p,
        b,
        0x4585d68b53a92ce1a9c8ecbc4933613fc90176a7907a2cc60b5acc523ab795a1int,
        0xb7d7fca8c5190cf860d5fb177c40ef0c328ec4bf5f6567ec1a05cb8dd3902ff3int,
        0x585d4f7e3520ac62f4447add504892bcd25620368fe0e8cbf73288e0c2d7e229int,
        -0x2d00b60fcb9fccc01075c6b3f9cedd3b258e219220fec7f8ee5e025272e61d349deb662be40bc795fd7066fef91a774dcb2bc6ff3840e07a3207a91a281e206aint,
        0xeda6e43e52d6d57212c31de5be91f180ae472c1cf78ba3464d68e1099b540325int,
        -0xad0b72e3f6fd8c035435e73a1fa297a3abecd697347806738509c62161ea99281f74d31386fcc6117b1542f9e89b7be42e12c83bbf0937da792941fb1e9f6c4int,
        0x68653aba5ff38484e7f45ee181c95b86c154fdfa3b184f5a421c2e2217ded5e9int,
        0x10f860d5c64a3ab8d9efd19eab0aa5c1db4dab683849a02b03121e0c055b3410fint,
        0x14bd7d5874fafc53754df99cb06aeaff26969a7909bf7c50b9a541529379d2fdint,
    );
    let e = lemma_reduces_square(
        r,
        e,
        p,
        b,
        0xeda6e43e52d6d57212c31de5be91f180ae472c1cf78ba3464d68e1099b540325int,
        0x68653aba5ff38484e7f45ee181c95b86c154fdfa3b184f5a421c2e2217ded5e9int,
        0x14bd7d5874fafc53754df99cb06aeaff26969a7909bf7c50b9a541529379d2fdint,
        -0x5ff7d79bd8a8cd23cbde9549fb5158309bf1ef40274b38bf6fe1e759e37badebdc499b912b9cef131ac20eaf5c52bca27d84b3bdef34f0c5b7456a203e63829int,
        0xc3c3ee13364e6f48de2a9e2f9ae37f1ae4338d7e1f1cf3a6cdd42e34c517cc2int,
        -0x98870f48d3b05c0a45f42e70df8c3da79d197368d113800758e190f28f2cdc16e390f7434d0230fd8d57fc8a34bf0981edd1d676ab5753fcdec6f07bce26ceint,
        0xd3398f45484bbc538ab252a49fbdafc79da9a4812f4e0e48bffb97276eb8df87int,
        0x561ec4178d32912743e602292c07c339cc4499c944fe1bae66738a14c2da6b27int,
        0x2135a26f9d6c79bf8246d62e694bd3bfbae4447622c56f1d3d9ee601b10f0e75int,
    );
    let e = lemma_reduces_square(
        r,
        e,
        p,
        b,
        0xc3c3ee13364e6f48de2a9e2f9ae37f1ae4338d7e1f1cf3a6cdd42e34c517cc2int,
        0xd3398f45484bbc538ab252a49fbdafc79da9a4812f4e0e48bffb97276eb8df87int,
        0x2135a26f9d6c79bf8246d62e694bd3bfbae4447622c56f1d3d9ee601b10f0e75int,
        -0x136e9f9392ecdc28671bdd91176e8a341a0078683c3b608d90ac405dddb216ab9196e041b6df89afa9b7afe59c516b151e6b363c32008e25289d238e134eafa6int,
        0xc58dac9319063381efa5b54f0ea5a49f9812ee0113696fbceba581702a7e4e7cint,
        -0x1871058e53a8e3f8ad1d9f096242edab138c2275b756f99600381a5b0a6c62c8e03ff02c70ba0f33320302e5bcc860dea23361e8e558b90a94fa3cbb522cbdeint,
        0xf5c2491d5d30c19f0bd3b06b405c10393efa61999730c1ee10993f7f66f367dint,
        0xbe6135256391a2b546afa58e3f888b31b843c9b2b9557d00a02ff8a8586ea36eint,
        0x8fce91c96ab0e8d0236b29d645ba257b5205ca5a8c6a0ec74bc47075761d625eint,
    );
    let e = lemma_reduces_square(
        r,
        e,
        p,
        b,
        0xc58dac9319063381efa5b54f0ea5a49f9812ee0113696fbceba581702a7e4e7cint,
        0xf5c2491d5d30c19f0bd3b06b405c10393efa61999730c1ee10993f7f66f367dint,
        0x8fce91c96ab0e8d0236b29d645ba257b5205ca5a8c6a0ec74bc47075761d625eint,
        -0x61e78155d80a7b9b12feb2df8fb687a3ebafe6dcf1e938d8cd36652bb73812eaf1f58987cc60c17140ef69ebc6b9765e222a3fa6429ef5875ff3c4cdd160ebbint,
        0x3f03b583e8f6ea2b5639f833370099ec8db4ee1bcc4f81f19003e0ec88886491int,
        -0x1ca502869f46f726406dec640ea79cc14f08f59b7acc3036ca0750e6e032f5a373d2dbee56cd6b1f6fa4491f9d276b931cc1c6e4f824371e835434ee66172613int,
        0x93b6fa6b61ff791d374d5c64ce4ae00cee957547ca5c731878ef70da32bdb1bdint,
        0x1d1384dee8cc2a8923eb246f91f0f446e8fd81fe3fc3b4377a22a4915da6722d7int,
        0xc65b242ee3cb7247e9018674e2b3bf436515861741fbe778d8aff27aa89efe7cint,
    );
    let e = lemma_reduces_square(
        r,
        e,
        p,
        b,
        0x3f03b583e8f6ea2b5639f833370099ec8db4ee1bcc4f81f19003e0ec88886491int,
        0x93b6fa6b61ff791d374d5c64ce4ae00cee957547ca5c731878ef70da32bdb1bdint,
        0xc65b242ee3cb7247e9018674e2b3bf436515861741fbe778d8aff27aa89efe7cint,
        -0x512adfdf430b832ef280c19871d9d72fc94fbc84dfceb919025b06e3d6177889833bb3adf5bada8e13919f0430d505e1928b36336da5bbdc0b42fdfeed32d840int,
        0x92feca428682b94edecd87dc2178308e9ed97142228049d3d2c5afe3f05371d9int,
        -0x367f434da6e2ca5fe2b6cd28c57da19bdf154ba11a8cf3da6380a4b3365106c05cbb374d0e5846cb07fcb1f881d6250c8488cd2261318e1fb9489dc6307932dfint,
        0xe165024e2fabb7bab1160eff038b47eacc6b6e522a0e86b130c09ccf84b535d3int,
        0x283f596dfe9487e9d7615d68b8e3f1d6ffe66c462eab62f1135f25e4b0f327c65int,
        0x8e522d24c79996a22f9dfc3213079ed344d1fd2df93bff1af8f415a3c8776e96int,
    );
    let e = lemma_reduces_square(
        r,
        e,
        p,
        b,
        0x92feca428682b94edecd87dc2178308e9ed97142228049d3d2c5afe3f05371d9int,
        0xe165024e2fabb7bab1160eff038b47eacc6b6e522a0e86b130c09ccf84b535d3int,
        0x8e522d24c79996a22f9dfc3213079ed344d1fd2df93bff1af8f415a3c8776e96int,
        -0x58dd266deab4620151b88589a79cf947b9a271e2e6548a67969b334fdcba0127e6cf4eb7ca368530f3971acd39f88a1d8ba0e61bf8f1b7781d69b92c00793f2aint,
        0x6248ffbb1c7b50821a34f9894b972282c31f0c83342b66c3a7a368e28a3c49dbint,
        -0x1c0e40e4e5225af39299def5b158d7c400e7e428074add14cdd5ebf881b752528129da3d68e781a65fb672f6a2862c6cf5733b9c128cee48059f56010ba09bc0int,
        0xdf53154e869916ba91c5840d561cfddd948894a4ea4efe678191de13d77ae7f6int,
        0x257418abf0b74e8012320acb81b16e4ad2c9fea047dabfd9990843518a23e3693int,
        0x700341932cbdff2030b14b545ad2708adb5fb150f9cb38efaabef81ebef6e874int,
    );
}

/// A power of a root, step by step.
proof fn power_11(r: int)
    requires
        root(r),
    ensures
        reduces(
            r,
            0x1fffffffe0000000200000000nat,
            0x926c5553438c08f9967209fab32ff0301566af8f51d0e4514e39d11f0c7d4e93int,
            0x7cb9a1270809b1f3ba53a5f42e9645cf0a1e3a4a634c1270825daf25cea52829int,
            0x94ca8f900c1d71128945462e06f12067481f844d3818e6a9b0e543d46a99ca01int,
        ),
{
    let (p, b) = (
        0xffffffff00000001000000000000000000000000ffffffffffffffffffffffffint,
        0x5ac635d8aa3a93e7b3ebbd55769886bc651d06b0cc53b0f63bce3c3e27d2604bint,
    );
    power_10(r);
    let e = 0x1fffffffe00000002000000nat;
    let e = lemma_reduces_square(
        r,
        e,
        p,
        b,
        0x6248ffbb1c7b50821a34f9894b972282c31f0c83342b66c3a7a368e28a3c49dbint,
        0xdf53154e869916ba91c5840d561cfddd948894a4ea4efe678191de13d77ae7f6int,
        0x700341932cbdff2030b14b545ad2708adb5fb150f9cb38efaabef81ebef6e874int,
        -0x454c1e949cbe9e91b1d5f18c1ced9e80fbe4e2d05d9303e8d406d7683561ec670131f3259d04433eb3f05a646f306a724d2bb74c3fb9ee9a8870ced73434310cint,
        0x4e2e424eeaebe35db319fdc33d1389d63db2e60d0eec9fa5f0bf86da05b9b7fdint,
        -0x1160f2f30cadb3286cb24773320860259df37ef5b37ae0eebea3fc5e27f09acde068b7ecf826ead0937ecc9f42bf87025c37634915924514245882cc41fdb484int,
        0xa42a057cf1350835ad3f3b38db160aedbbbc7228969416e99548b6cb271f9500int,
        0x1abdcc62d3c99168b01ec9b23f34f776ac21369dc941b4bc119234afdbe499519int,
        0x58f46948500ef28e41da0df946faf118cc208e9e28d8bcd2b7767defb25ab1a5int,
    );
    let e = lemma_reduces_square(
        r,
        e,
        p,
        b,
        0x4e2e424eeaebe35db319fdc33d1389d63db2e60d0eec9fa5f0bf86da05b9b7fdint,
        0xa42a057cf1350835ad3f3b38db160aedbbbc7228969416e99548b6cb271f9500int,
        0x58f46948500ef28e41da0df946faf118cc208e9e28d8bcd2b7767defb25ab1a5int,
        -0x2874313f10b8e9d82054709d47cec9ca5658007e34a36c5243e005c75ca4062ae92febafb4d21e5b035c5886113f3c2aa84cbf6019c08f6cf3036d1b8f382dd8int,
        0x627d9100b4dd3d6c600407b57c48432417c0a6bf515fe866ba35ade7b5a83c31int,
        -0xaf5d3a6fc826946633ca84ef71bb659653babe7fcc874820fce115727b8c82c8f11231b19c49840a45adb904ae3d701dd654a28270a1e665a704bab40e5b137int,
        0x15d64d97a6579473506fa679321aaa432667853ebe64bfc2e26f0531469b30b6int,
        0xfc55c931604eed49966e4f81121b81538fc2c88ef5f51eba00b11b905e48fae5int,
        0x133d37617a297b7bdf04862fdd31559339d3cb39032dee7c947f7e6bb495be12int,
    );
    let e = lemma_reduces_square(
        r,
        e,
        p,
        b,
        0x627d9100b4dd3d6c600407b57c48432417c0a6bf515fe866ba35ade7b5a83c31int,
        0x15d64d97a6579473506fa679321aaa432667853ebe64bfc2e26f0531469b30b6int,
        0x133d37617a297b7bdf04862fdd31559339d3cb39032dee7c947f7e6bb495be12int,
        -0x129f17598a08b434a7d9f21fa63612408cd5cd7144fbb3ac6269564a0034f33fbd41f518af2d4603dccb2eb4891231275f213127b75475a1d1891ed9ed9df37int,
        0x19c2f69d4fc5c19afae91a4788207c61da32819d4ad9dfcfc33b0a4ca934aaa2int,
        -0x833f8bad43005609e6eefdf337e51e3975a69c6d84978654afb60d6a9e8a5c7118f2b190e0d5bfe16cf412cdf523f987d2e03b3b37c2e66b92419ac441dd24int,
        0x9d38eaca9241697c29ddfe68171efcdb3b9d169ee0cb6c55ae8a42f3ec155664int,
        0x150108aeabb31eb9345591a1a81946cdcb7cc952e26a066e15cb77aff6d46341int,
        0x5e51b4dbfb6df1f15f4b87160c9ed21d7a72da1984b7060f965805841cc08355int,
    );
    let e = lemma_reduces_square(
        r,
        e,
        p,
        b,
        0x19c2f69d4fc5c19afae91a4788207c61da32819d4ad9dfcfc33b0a4ca934aaa2int,
        0x9d38eaca9241697c29ddfe68171efcdb3b9d169ee0cb6c55ae8a42f3ec155664int,
        0x5e51b4dbfb6df1f15f4b87160c9ed21d7a72da1984b7060f965805841cc08355int,
        -0x2914655f108ff1a6b6e05427c1b656e63d5438cb4d6de96020cc46a10cf1acc0c8597dafd3f2fbe9e0c2be4f5b0ad185dd19aacf1a9f7b9de54957663003befeint,
        0x3e3391c79abcae35d3c63aba17109ce3c7ce0bccf18cb469a43ee34267f45f0eint,
        -0xc527158b7751be544b8cb6a841257b132d02fb649da8e0534ea5a87843acb1a1027f5f2f2624201bd414248851a7917a8495c76d77ade0cf97c2508418e59dfint,
        0xd9fea18629bfd3825d5adc158896ce4d076e535fcf26ca077417fd2dd51e136int,
        0xdbcacc376921166a1e94197d56e03b0b0f766d4b69658c9fedf60fdec00ce7fcint,
        0xb010697bbeb0097ef39aed13dcec126999e7aa4f074149954aa033b5a0d7a94bint,
    );
    let e = lemma_reduces_square(
        r,
        e,
        p,
        b,
        0x3e3391c79abcae35d3c63aba17109ce3c7ce0bccf18cb469a43ee34267f45f0eint,
        0xd9fea18629bfd3825d5adc158896ce4d076e535fcf26ca077417fd2dd51e136int,
        0xb010697bbeb0097ef39aed13dcec126999e7aa4f074149954aa033b5a0d7a94bint,
        -0x6a52d3e95c8c3e5763dd4bb22686e073805820ad3ab81024b539b8e00bb830a2cf34b0170e2052ee53bb64622472f99945fd8aebc0d83da0b8c4abb2e11a8a0int,
        0xe72fe704e75c2164a09a0a4472e9db9dd63e83b73fbdeba780ab110d16a40118int,
        -0x2aefb0499451dbe2304410a95f16ad51b85cecd0ef424314978ec51050fa5937d476ae4eafe419bc6c34e4312bf8a6ac403e4ca83b0529516220ba9f35d5eb08int,
        0x5a4f171e9aefed685b3e261d90480c99ba356f42af09187bfe53c9c412c8fdd9int,
        0x1c18c3a1a7cd1bbdaee1fd6c5eec63fc2be811d4d3bc118160c1b87a1a8daffd2int,
        0x995a4c7f898dee09d4ea7da32624d60d7cfc233ec915436c339ea68c8b257955int,
    );
    let e = lemma_reduces_square(
        r,
        e,
        p,
        b,
        0xe72fe704e75c2164a09a0a4472e9db9dd63e83b73fbdeba780ab110d16a40118int,
        0x5a4f171e9aefed685b3e261d90480c99ba356f42af09187bfe53c9c412c8fdd9int,
        0x995a4c7f898dee09d4ea7da32624d60d7cfc233ec915436c339ea68c8b257955int,
        -0x265d6fd8a13d2b303fdf08e2aea8b6c51ff85ccb94ef1fc526dc73f6777ba66e7d9cbea6df0b59bf1d14ccbcca25d37d60f6d42fdc23ef32027eeb3bb8821c3dint,
        0xa8be0f7fa50d110eb0a0bcb9ba7bcf7d1f6261ee49639c5e5275df53eb299265int,
        -0x2092d7ac98fe02a0e01d84f629cb0c24511255945b57850e8d67bedb7ad6514105069e8b70b6d4207e272ccd6abd36c1314e3495c6812fb7412457d31dab89d9int,
        0xcad3376683bd30e9619c8b8dc875a3682396abfa2de59ba8b80d6ceceab9da72int,
        0x2486d3c8f2457a48e9c0da93a25d9b441c078eb790b966d15023e12d7f3cdd434int,
        0x4659cf9218dec3eaedbe1e3f21bd873be35953d99c641ec571e90c3457b042c0int,
    );
    let e = lemma_reduces_square(
        r,
        e,
        p,
        b,
        0xa8be0f7fa50d110eb0a0bcb9ba7bcf7d1f6261ee49639c5e5275df53eb299265int,
        0xcad3376683bd30e9619c8b8dc875a3682396abfa2de59ba8b80d6ceceab9da72int,
        0x4659cf9218dec3eaedbe1e3f21bd873be35953d99c641ec571e90c3457b042c0int,
        -0x2787238568175d2924833eb16ed9873b0735f9e0ea9b356731393bf98cd44e3c50a4dc32b7b0a19645267ca5fd835cf82bd6f866435b1471d6d8f9970291bc57int,
        0xd05f3cec62f3a2a578d9b74c5b2d84679444d76b6bdef72884d21ece9efee82int,
        -0x6daef724d15e967b83a971e79e1fc27e771dd8305013e3759e6f15a4e436b832f1398dc80c4c13090f86adfc0ff88285aa09b4a1f11b234210ce36cb4383ca5int,
        0x2c3db50e13e3340ea165b10adafa97f99d85596a0db6bb45031fb7f7e944524fint,
        0x137700f098e6e7263278e5367b4dfb43e5cc44cc5b0146cecc0215a70bac45e3dint,
        0x4f2a9611e50f58ce3f3cb167b00a78de542a7b6deb11b1b6b7c293e9c0dd1481int,
    );
    let e = lemma_reduces_square(
        r,
        e,
        p,
        b,
        0xd05f3cec62f3a2a578d9b74c5b2d84679444d76b6bdef72884d21ece9efee82int,
        0x2c3db50e13e3340ea165b10adafa97f99d85596a0db6bb45031fb7f7e944524fint,
        0x4f2a9611e50f58ce3f3cb167b00a78de542a7b6deb11b1b6b7c293e9c0dd1481int,
        -0x9b3cfe82f06fce0aa8d2ac31d5c659f7eb653aeb856ffb329f619a73860de60a9b9d463944575f14ca5bf2dc67534911535f2039070e7fede3a725e8de84427int,
        0x926c5553438c08f9967209fab32ff0301566af8f51d0e4514e39d11f0c7d4e93int,
        -0x8ae4e8b6ee3af068942f67d782e4e18a58f7f7bde70976817af2fccf5a76340964c50d83cb8320d572be8cc4236c17dee6f287288d7b0f3893379b2fcc813a2int,
        0x7cb9a1270809b1f3ba53a5f42e9645cf0a1e3a4a634c1270825daf25cea52829int,
        0x592535ed465d9a989bc57766a34220accf2869ec72e1779c0aa011d901892b99int,
        0x94ca8f900c1d71128945462e06f12067481f844d3818e6a9b0e543d46a99ca01int,
    );
}

/// A power of a root, step by step.
proof fn power_12(r: int)
    requires
        root(r),
    ensures
        reduces(
            r,
            0x1fffffffe000000020000000000nat,
            0xb9f306524fe0e3d75fe69a17b314ce5a4d69a246aaac32da754a4104f97e595bint,
            0xfc2b8f8fe1e9d4ad0a28f443bce9dfb96a02ba2d5c2b3ce42314e54be639359dint,
            0xa64f0a09f623ce414f2c4049c5f31feffb8387a6af6188f797bb827cfbfe1f6bint,
        ),
{
    let (p, b) = (
        0xffffffff00000001000000000000000000000000ffffffffffffffffffffffffint,
        0x5ac635d8aa3a93e7b3ebbd55769886bc651d06b0cc53b0f63bce3c3e27d2604bint,
    );
    power_11(r);
    let e = 0x1fffffffe0000000200000000nat;
    let e = lemma_reduces_square(
        r,
        e,
        p,
        b,
        0x926c5553438c08f9967209fab32ff0301566af8f51d0e4514e39d11f0c7d4e93int,
        0x7cb9a1270809b1f3ba53a5f42e9645cf0a1e3a4a634c1270825daf25cea52829int,
        0x94ca8f900c1d71128945462e06f12067481f844d3818e6a9b0e543d46a99ca01int,
        -0x3368da86b7f1452ab373ffb08bcde6928f9d630633e3f8465369a2e8b59e2beefae922183df7cdc4848651a9763d7ab0d78b4ad4635807d421b0e78263e997beint,
        0x41bd2f004852bae201040fa689c72dec5a6dd40913af5f15eaeb0554932f4ca5int,
        -0x1eaa2486e07d5a05ebca53e07906a9dd590fae34d4dbd8bb872f7ce9513aaebd1359bf5065285ad9067190f800766b3813d036d17cecfb2c46d0f90fbfe95d4cint,
        0x798a8bd7816864bc685ab7ac63499673864e410e363273238c6959485b920e75int,
        0x1ea69d76310248b9c75b00647e395eeb4184bde23b276bea7bde5693d377c58a7int,
        0x80e4cd81c63c7531b861b65106932bed6343532afa8d84dc429c2287391a8461int,
    );
    let e = lemma_reduces_square(
        r,
        e,
        p,
        b,
        0x41bd2f004852bae201040fa689c72dec5a6dd40913af5f15eaeb0554932f4ca5int,
        0x798a8bd7816864bc685ab7ac63499673864e410e363273238c6959485b920e75int,
        0x80e4cd81c63c7531b861b65106932bed6343532afa8d84dc429c2287391a8461int,
        -0x2b65d9465e564519669694f39b6b94aa49e75633a09d22f3438d640b98ba67cbaec43d2006205d0918a23b69b4532ad7e75c2389ff609a0b9582d048baf9fc38int,
        0xa015b565b25a6f2241bf5e57040cd1fca86afefa7c22c0b08a14cd45083c053int,
        -0x1702f75fd42a3fee48dca80477d6f3ed8b8af05f29db13f38a5a82b0cd46ff9eee6410aa9725c97ffffe251ee1e1eb8e8149634dbd6a7f051ec8788acf204c06int,
        0x7efc40b791397157d4479bfba2270bb99a77f04151c6f2ce860237ff30e5283fint,
        0x13e97c2b71b56c2d7d0424060e4ab6d796a046ddcf1641ce90f973c84a31ac498int,
        0xdeaa811d16bdb3f2f577e207b13b5ddb31f7bcfb14954a5a84735f94ba3e895eint,
    );
    let e = lemma_reduces_square(
        r,
        e,
        p,
        b,
        0xa015b565b25a6f2241bf5e57040cd1fca86afefa7c22c0b08a14cd45083c053int,
        0x7efc40b791397157d4479bfba2270bb99a77f04151c6f2ce860237ff30e5283fint,
        0xdeaa811d16bdb3f2f577e207b13b5ddb31f7bcfb14954a5a84735f94ba3e895eint,
        -0x4e541fb297f49ff4b0c00f8f743464f6483934a3823119f30d558cb93a28bfaa2ef2064e2e7a376006f1d428b4d9d70d1e66d463f337e67652dc0d5da97b9a05int,
        0x44669e5623fb732ae4e807bfbeca7ecc94e54e757c752ec8b10f22f292a798f8int,
        -0x44ac7a7b477f2ccf6fc5c49472b1df63a4f4a0cd9ce429fe14cac1c8037dcdf54c155dae5ff8784dd3fbd041fe95c4cc4d7d3ef933403c24f17f7ac2d669be0dint,
        0x794231b5fb44ff3be04856e656fe5f3a551efc729da0a34616b42b39dbd97eedint,
        0x295697310089dfd84c439f723f49e735b98209d2e9a1629765c34ff3f20602ca9int,
        0xe1b2a7601dd2c099ed7007bbc9dd7d7e33d2215bafc45119c125a90df1f13aaaint,
    );
    let e = lemma_reduces_square(
        r,
        e,
        p,
        b,
        0x44669e5623fb732ae4e807bfbeca7ecc94e54e757c752ec8b10f22f292a798f8int,
        0x794231b5fb44ff3be04856e656fe5f3a551efc729da0a34616b42b39dbd97eedint,
        0xe1b2a7601dd2c099ed7007bbc9dd7d7e33d2215bafc45119c125a90df1f13aaaint,
        -0x4bd087adca06e4edb421e56c66898f6c5b30c7084f98b84cbde356a1aef5f234a046c0e198273554b7781db843f7840df49a9a37ffb2c31ed21835be108f7d57int,
        0x4598acc8d55cb4acedb1e0b31e5e92d794a1b396426ef9df38803766e1fb277dint,
        -0x468e7dd14af624c3b78422d43dbfba9b0771494f9daa237bd239bfd4d8b703510db8c2fc91c8a85fd3073de6b4512ebaaa5b919e523e27fee0f4aaf8103e19f7int,
        0x38e62800b0d6d902951f61f1c1158d0af198fa10cb95d22185c41072926d3ab9int,
        0x306fe1343ff1484603705033442bb4e22b0350aa983b0db377769fd20e881a85bint,
        0xbbb5e4f8616a0eb4ae5c8953bb66ab541a5aa1907450210f01b46b133ea1c3d0int,
    );
    let e = lemma_reduces_square(
        r,
        e,
        p,
        b,
        0x4598acc8d55cb4acedb1e0b31e5e92d794a1b396426ef9df38803766e1fb277dint,
        0x38e62800b0d6d902951f61f1c1158d0af198fa10cb95d22185c41072926d3ab9int,
        0xbbb5e4f8616a0eb4ae5c8953bb66ab541a5aa1907450210f01b46b133ea1c3d0int,
        -0x1d965e0e2b1307903667aff5562b21f44da320e79851d1ae2d6f77fe4472eb0c4796d324e4950f3f9ca2f13707ab40ee4983b8b48eef23b152ea47b48f028f3dint,
        0x1d399b7cd84a002400341513d5581646088760b59149144b1952bf0773f63eecint,
        -0x30cdf4eae4e37ca71dfc8da3694ca45963ebd6fe57e49d4dbd3a66ccc8cb3e085777a3ceb1b9f179415cb9cd87aa481f628cd614505a506fcdbc2de025a0402dint,
        0xd9a9108ece1f03494a9a8044cb02b61661fd8bc5e990c814acb9d018d0411b5dint,
        0x20f9f2c8057bc5839828876e06de43e12d51920ed71649cb5800398e6eff44ee3int,
        0xa2d1757a970eb13af7aedcc0ed41f7bcce2ca01cc7e29f1067ede41cf4acdcb4int,
    );
    let e = lemma_reduces_square(
        r,
        e,
        p,
        b,
        0x1d399b7cd84a002400341513d5581646088760b59149144b1952bf0773f63eecint,
        0xd9a9108ece1f03494a9a8044cb02b61661fd8bc5e990c814acb9d018d0411b5dint,
        0xa2d1757a970eb13af7aedcc0ed41f7bcce2ca01cc7e29f1067ede41cf4acdcb4int,
        -0x622c77b092cecb49d1b6447ee5c75ef2d3598ffece09d7b8ad1d2b04b048376ef43f5041574ba2ff43e1d5837a38375e979fb59cd367fc577d3db336f656c741int,
        0xd782ee5a9bf1c06bfcbdb7016f72ade4d1b71e340bb9164b28c045b180e321b7int,
        -0x24b8045b77ea92e2b223f44969285169a7baf5e3d7f7069ee8eea4dd176a42bc294d57a74eaaedfb56233010f987cda3f06db123ba88d9272605222bd9e81b1dint,
        0x4983cba020e3a7f06d7e51b073ed0dfb6fbae6aac0b0d03d286ec1c0aa1c2883int,
        0x214e6159822d8fea822d3295d279bc0d823b5253631f1ca0dc29f6346595e0ea1int,
        0xa30c2022e9f76269a4e9508ccaa21f4b8cbdabc98a5338cc6e04f46e6d8485faint,
    );
    let e = lemma_reduces_square(
        r,
        e,
        p,
        b,
        0xd782ee5a9bf1c06bfcbdb7016f72ade4d1b71e340bb9164b28c045b180e321b7int,
        0x4983cba020e3a7f06d7e51b073ed0dfb6fbae6aac0b0d03d286ec1c0aa1c2883int,
        0xa30c2022e9f76269a4e9508ccaa21f4b8cbdabc98a5338cc6e04f46e6d8485faint,
        -0x213470eaec6736d8d4a102e92ffffbb889bae134c1b03f1d3089d191d7f24697f4a176ecaedca58441db3007e1d7c28da43740c25396377b86d6fb357e38b721int,
        0x1f5df354daa0efc366cbfd33ff75a9f48158fcce806c1d58063b58c097405a3cint,
        -0x24d27f2672a26b3b8585050a444d1490aaf761a4ddc66eac07a8db432f7411e7cc540cc4353cea81dd293028ceb94cbd52ff76487ce2cb2f44db770a3ccff7d9int,
        0x6cb7baf64f8743a13908116740cc5568652df0c186c6ebccea105be24f890079int,
        0x25f2ae86570e42bc46a164838135ae17749275288484990c19df97f3b5f752109int,
        0x9a0c3cc508e6c8f7c3792ca5dcb19ac818ef3cdf245e2a9dbead5c0e91ad7beaint,
    );
    let e = lemma_reduces_square(
        r,
        e,
        p,
        b,
        0x1f5df354daa0efc366cbfd33ff75a9f48158fcce806c1d58063b58c097405a3cint,
        0x6cb7baf64f8743a13908116740cc5568652df0c186c6ebccea105be24f890079int,
        0x9a0c3cc508e6c8f7c3792ca5dcb19ac818ef3cdf245e2a9dbead5c0e91ad7beaint,
        -0x2e650c279b1e1486bf13fe258fdaba088656fd51d939d3325a666108782ff9a0d2c2d2c3b0abe884ef3c33cdc2a3b8ddeffc4f514431fe532aedfd9d1ab91479int,
        0xb9f306524fe0e3d75fe69a17b314ce5a4d69a246aaac32da754a4104f97e595bint,
        -0x20de9b04130a6cfb3624312ec37a3750a0b0deb89f5f67c4eefaf960bd23a41dc00624d1549d115d85c9f8e44a570b2e016aa4c340f7ba1fbb9bd0298c11e2ebint,
        0xfc2b8f8fe1e9d4ad0a28f443bce9dfb96a02ba2d5c2b3ce42314e54be639359dint,
        0x16a03bf2bba7599d183f51f61926ed65b0eb22ba5e3c646b2bba7ff77284d32deint,
        0xa64f0a09f623ce414f2c4049c5f31feffb8387a6af6188f797bb827cfbfe1f6bint,
    );
}

/// A power of a root, step by step.
proof fn power_13(r: int)
    requires
        root(r),
    ensures
        reduces(
            r,
            0x1fffffffe00000002000000000000nat,
            0xac66ac460d1e15ab857a58e663e6a83e2651d854dc46b8f1722c2931a95ab03int,
            0x23ac6ff1841c8bbf84a69d51648cc696820665a407c2f25abedd3b088d59471fint,
            0xcb54695838c97dd3ed2003506189f3a9423c3c14d3907fe87c5cc4b5deea3e24int,
        ),
{
    let (p, b) = (
        0xffffffff00000001000000000000000000000000ffffffffffffffffffffffffint,
        0x5ac635d8aa3a93e7b3ebbd55769886bc651d06b0cc53b0f63bce3c3e27d2604bint,
    );
    power_12(r);
    let e = 0x1fffffffe000000020000000000nat;
    let e = lemma_reduces_square(
        r,
        e,
        p,
        b,
        0xb9f306524fe0e3d75fe69a17b314ce5a4d69a246aaac32da754a4104f97e595bint,
        0xfc2b8f8fe1e9d4ad0a28f443bce9dfb96a02ba2d5c2b3ce42314e54be639359dint,
        0xa64f0a09f623ce414f2c4049c5f31feffb8387a6af6188f797bb827cfbfe1f6bint,
        -0x742d687fa38260f165b46c55ceda06c5cdfe50e6cae1ae2cb4c4cbd31038896d68e10d7d53959169aca142219dfb86cd87a7e5a447b285040c3b86d25da7a413int,
        0xf9d39087b681db9b5f03e1a8ef862717d69afe659380d46e1c6d91195eec731cint,
        -0x264f60dc74f0e1fecbc0698b3c7d4040e4e595d9eaecb07bb5c1dfd3ec29f77435cd56179d461fbc42c6ddb8b6065a9787a9d166496ff719acf9f9491760138eint,
        0x6da362c6c9a5982a273ffb11a31fb2e57c98ccecef73741970e86e9c3b1cb197int,
        0x32e1f951a728c2fc1e51d9b5dc34877f97792e9c59600b958a5a3f27a45f75054int,
        0x87c232070c80810db368492e2f6e4cdaf31b65cb3caf0be9a70eb8d8c37fb2daint,
    );
    let e = lemma_reduces_square(
        r,
        e,
        p,
        b,
        0xf9d39087b681db9b5f03e1a8ef862717d69afe659380d46e1c6d91195eec731cint,
        0x6da362c6c9a5982a273ffb11a31fb2e57c98ccecef73741970e86e9c3b1cb197int,
        0x87c232070c80810db368492e2f6e4cdaf31b65cb3caf0be9a70eb8d8c37fb2daint,
        -0x293b93f3901fe9315d262ca6cceb2c0c60d581dc44a1cdf52cd6206f8d1681722dd2d52045a38487b8175ec3cfea3b9a166643a6a11a8c0ebcce21ebc5a1e32bint,
        0x4c97a0608eb4fb442a1938002e927eea4832e574032b2ed36aa96afad974a001int,
        -0x19872d14e2479c95ab25122e3c39985ced8ef30568a1fde2a17792ce7eb3efd4e4d7ffa7195e5627e964e94a7b3df12d9a4267cf6146d31a7fb5a5a0f32503a7int,
        0x404d04fe57ee69e1ff6ef8102283927c09995b43b7fbe351d046e11a9f2e37d9int,
        0x20fe7df5ac06b4e8c19eb2e50487fb325c5912ce28623696ab919d0b512e68768int,
        0x662154901b2057c53ba8d3c42638c4b1480ab553316dd1b032ec7c5e816f4f15int,
    );
    let e = lemma_reduces_square(
        r,
        e,
        p,
        b,
        0x4c97a0608eb4fb442a1938002e927eea4832e574032b2ed36aa96afad974a001int,
        0x404d04fe57ee69e1ff6ef8102283927c09995b43b7fbe351d046e11a9f2e37d9int,
        0x662154901b2057c53ba8d3c42638c4b1480ab553316dd1b032ec7c5e816f4f15int,
        -0x12312fde8e596917c93acdbfdc063227daee7dfaf6e2e814d6a8718a4fb060fcb059acfd35f02d6f2a21bf3d837cf694eb93e41ab660bfd7a7f03282cb689c31int,
        0xa580b55b6205a4ab119946a06df34747f93f228db299488bfb6732bfd302f9b2int,
        -0xe728be78da12da82a0f57cb9c80ff0826c16c69da4de1eb2b0a60089583adc7b70939a67121614873a8f7333def4e5970b585a9f63f5084c1eba0c5e6f44195int,
        0x7677cea77270d0c7c1bec69e5dfab979ca75f0d3413b41b3a82a2d5a24dfc1b8int,
        0xc77f1a5737573d2bcbcdbcc0f4353bfdbacbf17072ef1c1e08b00df590e1cfabint,
        0x6af56fa5b21a93ed401f2f389e876ff96f5b10fa508ce0e254719acd2bb98af1int,
    );
    let e = lemma_reduces_square(
        r,
        e,
        p,
        b,
        0xa580b55b6205a4ab119946a06df34747f93f228db299488bfb6732bfd302f9b2int,
        0x7677cea77270d0c7c1bec69e5dfab979ca75f0d3413b41b3a82a2d5a24dfc1b8int,
        0x6af56fa5b21a93ed401f2f389e876ff96f5b10fa508ce0e254719acd2bb98af1int,
        -0x231a133d7f50754aeaa5916b39ac41bac236e3f5e3581b0fbee6d1ed91df1f399833a46bfda3d2508d506d8aceb8547e908ad593a3683794546c3d118141bc2cint,
        0x36d1a14454d284d4fe688acdab9478c7d3226b4370244a5c1872e7f1de58aec8int,
        -0xfd8890b268da946de1db867cc48537129a10393517923ad166a40ad9dbb6e948714d284287b28deddcd3ff3bff6aa4467de3898403c80d1f0ad758d561db496int,
        0x2c1a1eb50e7573da7266b29de5658355b04f94ced4737055ea8cfa006f2900afint,
        0x1472f1cc866be269f3daddaf56ea753d5e6d98f1a4e6aef13277821c4a8a35072int,
        0xaeff70404f5189477688f3130e909a47004299c1f67cd60b4fb41e83df0c7279int,
    );
    let e = lemma_reduces_square(
        r,
        e,
        p,
        b,
        0x36d1a14454d284d4fe688acdab9478c7d3226b4370244a5c1872e7f1de58aec8int,
        0x2c1a1eb50e7573da7266b29de5658355b04f94ced4737055ea8cfa006f2900afint,
        0xaeff70404f5189477688f3130e909a47004299c1f67cd60b4fb41e83df0c7279int,
        -0x15613ba8158f9879c76c6fc1e89a8b47c0b6833a7f310e9866a40cd2a31757a345f48393aa5bbc16c2cd45fd5a35de8d44f246887d94d177e50b4bb387bd96feint,
        0x1031601a342ba59192ae16ac4827527b3879c3246f157cfc7f235eeea729ba08int,
        -0x2a6af3ffd9f895f7c33667c35074c97771982877a360d6989d79e4cad384c339092093b59c4ae31425ba2aaf7b5d1c63e91d158caf465573f71b4d7b282ae228int,
        0x78260eb106f9fb68708d9d1a8ee2b036389cc54e6ba4d287f5c62594807c0a37int,
        0x1b96c0c8e0fa9bed31bc6da7623458dce93ad28b518fd443a3c720b2bfaf96075int,
        0xbe18378097b39641d3dfbe3e70d7fb02be675638ddc9db0b25dcce2028df28b9int,
    );
    let e = lemma_reduces_square(
        r,
        e,
        p,
        b,
        0x1031601a342ba59192ae16ac4827527b3879c3246f157cfc7f235eeea729ba08int,
        0x78260eb106f9fb68708d9d1a8ee2b036389cc54e6ba4d287f5c62594807c0a37int,
        0xbe18378097b39641d3dfbe3e70d7fb02be675638ddc9db0b25dcce2028df28b9int,
        -0x3f45419c219bdc3228abbf99670881397dde4f8f7eaa34114e154246636686e370d5dce6e35384a69101e94d585cd876da99dfc024ef8cfe2689f593a7aae5a7int,
        0xbe0a7db4a2a0aa577a73bc6958e358c2043f5cd224691a02393aa3bbbfbf24afint,
        -0x320d569d1d57dc7f7283cb31752637e622d3f4c36be81b37be5e47d8857cec416803228ba97672350a73a1dd52e0701a8dad44e3f4801840aae8db533f68a5a9int,
        0x9309a922ea6f58e0123ba7cae397adbe06b38409e135b0fd7b19cee330a64966int,
        0x1f7e7ec66b209aaf22130900cb48cf0c50e445923c609987942c7648695ba0185int,
        0xbf4754280a7851a6427af32c0a13161494972b1872cda7255a900cf41424b9f9int,
    );
    let e = lemma_reduces_square(
        r,
        e,
        p,
        b,
        0xbe0a7db4a2a0aa577a73bc6958e358c2043f5cd224691a02393aa3bbbfbf24afint,
        0x9309a922ea6f58e0123ba7cae397adbe06b38409e135b0fd7b19cee330a64966int,
        0xbf4754280a7851a6427af32c0a13161494972b1872cda7255a900cf41424b9f9int,
        -0x4de9a42323171f78dfb891def0efdd029cbab5749ab187ea024c5a322b49785a6aaf1c196a32283779abd1d40bf5b4da96078c2439a2d562790cbd63e21af2a5int,
        0x4e517eace89782f3228ad460d2eafce165853a9c4efdcfa0557a12cecd38e158int,
        -0x32ad746e34579b968f46341b1706730ae4702da99c4d09777756c738194f642137d985871a0475fa148d5268064bcb8f505c245c64c45f6ad94ae0d9d39fcf29int,
        0x7f9b268ed542e1ad8a343321d182057df7af6758fdcab19888440b5339a44d34int,
        0x31d343150c151d7f8e8a9f4c0c46cd314e72662104415dc324526de87c921ae83int,
        0x870208706f0dc0adaa18ba1ab88ed9f1fe46182962c16d1b34f8cf5b73ecca28int,
    );
    let e = lemma_reduces_square(
        r,
        e,
        p,
        b,
        0x4e517eace89782f3228ad460d2eafce165853a9c4efdcfa0557a12cecd38e158int,
        0x7f9b268ed542e1ad8a343321d182057df7af6758fdcab19888440b5339a44d34int,
        0x870208706f0dc0adaa18ba1ab88ed9f1fe46182962c16d1b34f8cf5b73ecca28int,
        -0x2fb98733f5e71376cecf54b208fa8b8e7179b6a6d2abcb50cd9cdd04fb0ef73f0790640b1e26d9bca9fa8a9576cafbd359f91e267e5b0df7fff049854886007dint,
        0xac66ac460d1e15ab857a58e663e6a83e2651d854dc46b8f1722c2931a95ab03int,
        -0x193f1b830451582ccbb739fdbddb4977e560fe9e5922c418c93937a6c5e4f5ead121a9748d972b313e130ce5e43505af5e912eaf686981c4e69427033a5790a1int,
        0x23ac6ff1841c8bbf84a69d51648cc696820665a407c2f25abedd3b088d59471fint,
        0x167cfef1536d9cc925cbc493b4126c7b83feb6dcb3881b03027f0698769332d54int,
        0xcb54695838c97dd3ed2003506189f3a9423c3c14d3907fe87c5cc4b5deea3e24int,
    );
}

/// A power of a root, step by step.
proof fn power_14(r: int)
    requires
        root(r),
    ensures
        reduces(
            r,
            0x1fffffffe0000000200000000000000nat,
            0x6aa43a0296d7e72488df78bbc476d90835f290d3ab7f869c10a58f49f6ef0cd0int,
            0x77f4d84e9795d1fce5a67e6b28370845abb1d95575fdcbe46ecfc20ee8d4fd85int,
            0xe5a0c4c6f969cbebe5e310016db736b8f8d6cbee24ac63cddfa9d36db3eaaf4eint,
        ),
{
    let (p, b) = (
        0xffffffff00000001000000000000000000000000ffffffffffffffffffffffffint,
        0x5ac635d8aa3a93e7b3ebbd55769886bc651d06b0cc53b0f63bce3c3e27d2604bint,
    );
    power_13(r);
    let e = 0x1fffffffe00000002000000000000nat;
    let e = lemma_reduces_square(
        r,
        e,
        p,
        b,
        0xac66ac460d1e15ab857a58e663e6a83e2651d854dc46b8f1722c2931a95ab03int,
        0x23ac6ff1841c8bbf84a69d51648cc696820665a407c2f25abedd3b088d59471fint,
        0xcb54695838c97dd3ed2003506189f3a9423c3c14d3907fe87c5cc4b5deea3e24int,
        -0x1417fe329832d836c278bdc72234b474e46db08ca9b409290df3f2e8eb88f5cfb0da8cdf42c43c429c06ba472b046652382179862b782ae530edc05e06d4441cint,
        0xb62252645e99a0a7eb154d822350df898d917186819d6334d93c806266e75c05int,
        -0x3943ae638a02d4dfdc8a75b1d9aaddeaa8d6d53564ec197ddbc9b2c072eab0f71fb5cd4268b8bef480b899a0275659d4eca5bee350ab48b278aff0a35586af8fint,
        0xe70beb9de0cb1213cd405093461982eab441b69e6e87eb6e33b1f1b3e01c27a3int,
        0x1fa9353e1fb4d919dc0fe43987536409b77c62c30e75a1ae667c412effc3eee05int,
        0x254fada6dee7a54f8bccb7e0d1a3026a7430ccaaf55942c7df83241ac2a90fceint,
    );
    let e = lemma_reduces_square(
        r,
        e,
        p,
        b,
        0xb62252645e99a0a7eb154d822350df898d917186819d6334d93c806266e75c05int,
        0xe70beb9de0cb1213cd405093461982eab441b69e6e87eb6e33b1f1b3e01c27a3int,
        0x254fada6dee7a54f8bccb7e0d1a3026a7430ccaaf55942c7df83241ac2a90fceint,
        -0x17e187704685431466f1051b04afdebfcfb2c8928aaeec4ba47b0156092a172dd74a366917f3207765f5dc21bb49c764c3017b349e5e9ba84f2fa897933794b8int,
        0xdcbe853ac48a69555d2f72fb13e24880177fbc57f418657e67a38923b6c99ec5int,
        -0x1eda177f29618af9245b9295bd0f85f918eb842e400d43464cdb402d93eee68c99aebac6be2933e847ab830afcc306a0a3137a9fb1d10f763285842c17d7862int,
        0x25b7d22aa6b44890771f80904e12dd38dd57ed8c29a408e28465fb7e75504c8cint,
        0x115ee32da6a0628bafbaa8917f659a283bb3c12839946aba87b465b550c42191dint,
        0x8d498cde69f57d138836ab7988dc8f66890717aa8ad7b0b0d40e30730ea9363eint,
    );
    let e = lemma_reduces_square(
        r,
        e,
        p,
        b,
        0xdcbe853ac48a69555d2f72fb13e24880177fbc57f418657e67a38923b6c99ec5int,
        0x25b7d22aa6b44890771f80904e12dd38dd57ed8c29a408e28465fb7e75504c8cint,
        0x8d498cde69f57d138836ab7988dc8f66890717aa8ad7b0b0d40e30730ea9363eint,
        -0xec33ee562fcc24d0e41ec499c7434fa1e7a4778d5faed180da4ac3b19530aaf19207c75143c537e11b09877ad81ae17ac15144f4ecdcebdef41c8827f21736dint,
        0xf49e6238129b25d2e5d446f88ffa8b212a25c9ea47fc1ef0dcb20f02543fd23cint,
        -0x1ba64d16e0d5b9512dff7f549558ba8bbd154f1745c1f60a9c35e07fa817741b8b37c5e034808ba6264ec5e30d59bfe5000ba06b77f91221f8fc257e90bd45e5int,
        0xd08c48fa6f311c31c48253572e273a06074e584e106ace01f4acaae2d3ee26d7int,
        0x1e325ac06f700499ab20ab7d70b8b85fb86d0efd33caf97584a4d2bc01488c315int,
        0xd62e43a9fcb83c35a76f84ddb4a6211fc0308370bd0824269c15bc2313b8d81dint,
    );
    let e = lemma_reduces_square(
        r,
        e,
        p,
        b,
        0xf49e6238129b25d2e5d446f88ffa8b212a25c9ea47fc1ef0dcb20f02543fd23cint,
        0xd08c48fa6f311c31c48253572e273a06074e584e106ace01f4acaae2d3ee26d7int,
        0xd62e43a9fcb83c35a76f84ddb4a6211fc0308370bd0824269c15bc2313b8d81dint,
        -0x7bbca41a7726b2b7080f6bee990c8c828bcf8a6ab74b539801121ae80984a558163541bbefaef048cd30a0f2b4a7c19038231bab6bbf18cb859a03bacd2c0319int,
        0xc970998409a9cb58b76644612307a83a1581b379c7a12d21ec70a09460df51a5int,
        -0x3f8a1a28547499c52ec33c0f3719dd770ea8297e67b1baf45c3a114f588952940c243b9a7db5a01538711c747ae920e7abefafee4a9509fce339a0226418b5b7int,
        0xa52666ce389b6b23d615720027e0ce1eaae9abaf4eabbaf07980affebefe6ad0int,
        0x45cc99e61c769a664b25a7397177a2a3a25ce54dcd91701589ce4660d182e4508int,
        0xe0ca63e7fe6a81bde9801905c364bb17cab1b3c11ee4c9e2aba06db6b1b4890cint,
    );
    let e = lemma_reduces_square(
        r,
        e,
        p,
        b,
        0xc970998409a9cb58b76644612307a83a1581b379c7a12d21ec70a09460df51a5int,
        0xa52666ce389b6b23d615720027e0ce1eaae9abaf4eabbaf07980affebefe6ad0int,
        0xe0ca63e7fe6a81bde9801905c364bb17cab1b3c11ee4c9e2aba06db6b1b4890cint,
        -0x66d77d7afa6f1104d6e99bf8af2353d8cb3ad7d75037f02abaf6409b2959060ee291fa1a376d8f290e8c7ea1ea2c8f0b635202eac532d139a1eff198d1cc9914int,
        0xa900832eefc2c87453a7254fce700a6991c18a55b96e925a5471d2d7c8cf54c5int,
        -0x45fd90a8a2e310cd7723fed1c73924c57fe2fe09dece12ff4b376b9058e3f4f4d1014b4885ffb59051e4e2f09ef2eda01770c2174eeb89863baed94a59de70fdint,
        0x6fbf900ffa24802b4db2eedd7620788fb0d5338eb8c4bcb0025b7d4818a05773int,
        0x41c768267908cadeead8798bbec1c4afe5f115c59fa73888231ec81da685e2866int,
        0x50c3dbef5376b3554ca97692cd3aeb0bd2313ff5b9819f29d4efa6cf2cc2dc8eint,
    );
    let e = lemma_reduces_square(
        r,
        e,
        p,
        b,
        0xa900832eefc2c87453a7254fce700a6991c18a55b96e925a5471d2d7c8cf54c5int,
        0x6fbf900ffa24802b4db2eedd7620788fb0d5338eb8c4bcb0025b7d4818a05773int,
        0x50c3dbef5376b3554ca97692cd3aeb0bd2313ff5b9819f29d4efa6cf2cc2dc8eint,
        -0x19008c94906ba2230fe19451fd6b1b49a184f2496e41697721767d8d300a9b13e62f20ed31009eb6c640a4c35c94455f1f06c3e505bea9da0c0681941e095c23int,
        0x7173a09bbe2eaf3893c64af8e27a65175be93c0a0a1d86d41c8da4e836eebf1aint,
        -0x908f83f14e15f4be2074a373fd6ae50636338666bbeff890c09141a3e08c293ff9264181a327fc1c0cd32038f6d3732ad1b1456140e651016e574a5841976c3int,
        0x564e96306069a8b0d122d460f72d3ba1c48cb437045a6f52c3e58abbf279578bint,
        0xe7db975a37c9d7edd756ce414647f15768ecd0a5739b176be9b6230f967c7bb0int,
        0x1663f3d6f5406c41584404815f94d8d09ee1e87b26718e9cf79c426766199831int,
    );
    let e = lemma_reduces_square(
        r,
        e,
        p,
        b,
        0x7173a09bbe2eaf3893c64af8e27a65175be93c0a0a1d86d41c8da4e836eebf1aint,
        0x564e96306069a8b0d122d460f72d3ba1c48cb437045a6f52c3e58abbf279578bint,
        0x1663f3d6f5406c41584404815f94d8d09ee1e87b26718e9cf79c426766199831int,
        -0x55a71a68b0b52789154e9539d1c61563241ea6eb1b53a2dc7f1c32947436b5b9fb98396139363644f3fdde8bd60fcaba2b800e904684ae97dc0abd0ddf2d156int,
        0x620b979661dc3576234d2fb1d9506b498aa31aa0f63673c939cbe96a12c79c7cint,
        -0xb1c40553170339260dedfb5442188f382c7ca0c40447dedf1850afbb00e5a52c235ab5b2689df76545dfa099e220ef521569d3e36d6700206a2f8fe7f30b2cint,
        0x125870752debcb41e63d95f8396f3e32ee5a58034fb8e1bba1d3fd4758c8b147int,
        0x36d15afff3ed3141ccdc9c0a4b483e15605e07990fe9dc12665db08e9f392fb3int,
        0x7eab9034b827fc633b26686b04a9c15d4298b446bc5386c62a688a6a401ba943int,
    );
    let e = lemma_reduces_square(
        r,
        e,
        p,
        b,
        0x620b979661dc3576234d2fb1d9506b498aa31aa0f63673c939cbe96a12c79c7cint,
        0x125870752debcb41e63d95f8396f3e32ee5a58034fb8e1bba1d3fd4758c8b147int,
        0x7eab9034b827fc633b26686b04a9c15d4298b446bc5386c62a688a6a401ba943int,
        -0x66ffeac3ef90471c6a41054bad5f41c2743873a3517285273a5efdc636e7c047f4cf4d249658bd88ed1c706230e17263e314bf95542f11f9b62f529f5025ff2int,
        0x6aa43a0296d7e72488df78bbc476d90835f290d3ab7f869c10a58f49f6ef0cd0int,
        -0x1639771a546154abd987c227f9341800c9b6208e338eda4b40cb887ea7d65554b67373942a072becfd5c4e1fdcd13547aedcfe383b455c1ae006bd68e2b4cd9eint,
        0x77f4d84e9795d1fce5a67e6b28370845abb1d95575fdcbe46ecfc20ee8d4fd85int,
        0x11e5f6052a9269b45c7ce14b93d65ed8c27c5ab0278716b7f7f048e2b1ad5361aint,
        0xe5a0c4c6f969cbebe5e310016db736b8f8d6cbee24ac63cddfa9d36db3eaaf4eint,
    );
}

/// A power of a root, step by step.
proof fn power_15(r: int)
    requires
        root(r),
    ensures
        reduces(
            r,
            0x1fffffffe000000020000000000000000nat,
            0x377e23dedd24f3552bd0543b9616b2031ac7774ff03fa10e86c92fafac651b52int,
            0xee8974b31bcd62e0cb78962fe7d984f9dea6f87161b1707f67925d30d3f97a5eint,
            0x5b40f2c18a3dd19137374611fac26d0957f7fcd1941dcb0dd7dee8aa77373e23int,
        ),
{
    let (p, b) = (
        0xffffffff00000001000000000000000000000000ffffffffffffffffffffffffint,
        0x5ac635d8aa3a93e7b3ebbd55769886bc651d06b0cc53b0f63bce3c3e27d2604bint,
    );
    power_14(r);
    let e = 0x1fffffffe0000000200000000000000nat;
    let e = lemma_reduces_square(
        r,
        e,
        p,
        b,
        0x6aa43a0296d7e72488df78bbc476d90835f290d3ab7f869c10a58f49f6ef0cd0int,
        0x77f4d84e9795d1fce5a67e6b28370845abb1d95575fdcbe46ecfc20ee8d4fd85int,
        0xe5a0c4c6f969cbebe5e310016db736b8f8d6cbee24ac63cddfa9d36db3eaaf4eint,
        -0x4c4e72472feb50b9b8e721530c0e0cf7d761099ff04925088e135976d857b7b3ecf88a3711eb572c54ba1498ed5e42844e6672062f5acae72876d12604932af1int,
        0xaebbfdb01777359550577cec04dae6ef2ca980c35fbb387e7e694bc989ee298bint,
        -0x490905afeeb123f7b9fd98216a20af6115b27e6b80701c1616bcf37838e2f6d8e957225e94fb40cf5da1889e520d623e3582dddb427d9f9f9a9bcc5ad2abf407int,
        0x4fb18a11dd7975ac61928d7102bd908426c41d6a409fb695d5352e67dafff2d1int,
        0x361705b5381486ed40312d7617d09f512042eae9bf30ba5577e5b4b66b04a7f23int,
        0xe0da9338e861e5993de4de5f0ee6b2a31bdd46c821d817af2426f78c4cfe0848int,
    );
    let e = lemma_reduces_square(
        r,
        e,
        p,
        b,
        0xaebbfdb01777359550577cec04dae6ef2ca980c35fbb387e7e694bc989ee298bint,
        0x4fb18a11dd7975ac61928d7102bd908426c41d6a409fb695d5352e67dafff2d1int,
        0xe0da9338e861e5993de4de5f0ee6b2a31bdd46c821d817af2426f78c4cfe0848int,
        -0x31a3f6b1d130f6aa189a92a973800060729056d8e6d032e61d024eebc48b2d0fa6b3da36e1cdcbfe59d0441906ce68c9d68a6390ccdaca79a5cef367ef38f6f1int,
        0x2cd2babfd6e46a66607b0071e20fb3b3e6663e4a43c920a75c68ddbefca75958int,
        -0x4607a522cee522d6cd2316112f20da717c2eca860b8b9da1308ef519f261280ff5417fcfff8d87fda2ab40592fc74b4f8a3b4189189db8bbb72857f6fac999c4int,
        0xd90fab9c2739f701e181dff25cf617154b38dd63a57677730e22987b77608922int,
        0x39c40203ca0ab497b4983d07c41741d36ddcc10a866d2cf38cd5039198cfe690fint,
        0xa051b982b888b21f5aa379cc2b7c5161c46026102701125851351340217e02a0int,
    );
    let e = lemma_reduces_square(
        r,
        e,
        p,
        b,
        0x2cd2babfd6e46a66607b0071e20fb3b3e6663e4a43c920a75c68ddbefca75958int,
        0xd90fab9c2739f701e181dff25cf617154b38dd63a57677730e22987b77608922int,
        0xa051b982b888b21f5aa379cc2b7c5161c46026102701125851351340217e02a0int,
        -0x60669ad9bb3da6988320a57ef250ffac0d97002e8f1a6ed3bad190af160aca3d1c007c5cc2431890fd17db864dba2c87c5afd0723383e8669f061b645c6c9be2int,
        0x7c3a30c0484c83c7f91e8772eeea4492dafa9778cc19267c91f22174c28da6deint,
        -0x2399af6750ac1c48c07d725f38de13b9e8b5442ca09c6d74c826031bd3796741040f9d1def5af7394bc57e0ad5671182693862090198067d2bb353582ca537f7int,
        0xacdd7a785ceae2c350022f99c1ad5a9b7037347292c4d78156ac4d892841bee9int,
        0x21d625f95af3ff8511eb1855d623f9ad5c2f0c74d564a14758edef72af34ed613int,
        0x43b252505d01ebf8d48f52377c0b9118bb95d7a987fa77f23452224a440df897int,
    );
    let e = lemma_reduces_square(
        r,
        e,
        p,
        b,
        0x7c3a30c0484c83c7f91e8772eeea4492dafa9778cc19267c91f22174c28da6deint,
        0xacdd7a785ceae2c350022f99c1ad5a9b7037347292c4d78156ac4d892841bee9int,
        0x43b252505d01ebf8d48f52377c0b9118bb95d7a987fa77f23452224a440df897int,
        -0x206b054a4eeff73928b646d108880c1bb8e25afed55cfe1847a8a0573010a3b0c76bef30e0c94956b3643ecc6b8f25974946aac024dc32ef5a30ea5ed7c65a33int,
        0x3d9755641542a16f2101ea5ad4f8a0f4b24d4a35b5bba177a9fb581e29762b47int,
        -0x6590294554d129f8d5325dbd7f1ed5f68b54067c6b8fd825c326afaf900f40584c8531c79746183fc53fab30e0a852a123002bd058d49a7e0039246743f8667int,
        0xc9fa0e2392433574513128baa5f57f5be619cd3f5c99dc0f25bcef1fa6430e54int,
        0xec225c68f7378595598a545c463fbc40065415bdc0502afd5e5ca378b2653c1fint,
        0x756e81fa8a3175d2d03e5a8be9e1f34ad633dfb2c950fec931e9a3d5163ba147int,
    );
    let e = lemma_reduces_square(
        r,
        e,
        p,
        b,
        0x3d9755641542a16f2101ea5ad4f8a0f4b24d4a35b5bba177a9fb581e29762b47int,
        0xc9fa0e2392433574513128baa5f57f5be619cd3f5c99dc0f25bcef1fa6430e54int,
        0x756e81fa8a3175d2d03e5a8be9e1f34ad633dfb2c950fec931e9a3d5163ba147int,
        -0x41b4852e9dc096ae8bf528c013175bed952f0a063cf2ef2cdc76367d013809139792ab8a8ece6e48dd26a123cf2d5ddecbe8071cd80afbe74338436d246072c6int,
        0x3617454ba96bf6d3f01883d7cf76325c4a55f6c20667ae1f2a9a93a704893063int,
        -0x1319d2f1c734a674b5953750f11da539b925d038cc5e3ef02766b7b7d54c18e7417d5613c0a03de4fe249336b65de91ef69a1c3b24fe02838cf3eb0246fac802int,
        0xd09a232cf589cda3f5646cd69981565abe081f969421a3abf39da51642b93383int,
        0x17976b6a3c9d2e135617c987c107b81050ad69ed450f4472b4e1438c36159b809int,
        0x6d46d072350a9375687aa9444db9dbe7125bb217d439b9b3460983766bd1780eint,
    );
    let e = lemma_reduces_square(
        r,
        e,
        p,
        b,
        0x3617454ba96bf6d3f01883d7cf76325c4a55f6c20667ae1f2a9a93a704893063int,
        0xd09a232cf589cda3f5646cd69981565abe081f969421a3abf39da51642b93383int,
        0x6d46d072350a9375687aa9444db9dbe7125bb217d439b9b3460983766bd1780eint,
        -0x3f25dabcef6e8710b0ee12b5ce324a37f2d9ab78a64af91cd266881ec071024144f1f848f1d30e9a8e9c3ee3c25d6f07b4be938be017bac5ac42ac8b2244e4c8int,
        0x6b732af77629adba71c3444374f608639e019fccdc10733b3e015f1cb98762e5int,
        -0x108a41db48baad959ae452d99382a342de1c64eeea3bc9e3b932eb49ab07ebafd7fdc22b0effd97266d7e9692d5d476856dda8deb22d980549b1e0db00ee002bint,
        0x8698dbf48ce25ce2869eba78c4721fad817cedbdda23bc8d89e095e3811034b7int,
        0x16418b712ed78244e88cd0651f0a1dc8ebad19662e2508a79970bd69697942adeint,
        0x18b43adf4723ba8a47a481e1db6d68e5f76669a6b4c381fa4b3ba5dd5ac71d07int,
    );
    let e = lemma_reduces_square(
        r,
        e,
        p,
        b,
        0x6b732af77629adba71c3444374f608639e019fccdc10733b3e015f1cb98762e5int,
        0x8698dbf48ce25ce2869eba78c4721fad817cedbdda23bc8d89e095e3811034b7int,
        0x18b43adf4723ba8a47a481e1db6d68e5f76669a6b4c381fa4b3ba5dd5ac71d07int,
        -0x936112c0b8a105d8a965c9a44d76aa95b1c2a3f221fae159278dd90c7e9956d5811539708fd647bb6de1abae5ac11c1c5e7f897e113034a77115fdf9ac0cf05int,
        0x8b4f3c48384aa42fe4ca45f85f0df9736d8b9c96fcac658c0204d9003008c93eint,
        -0xd86682c3540fa0260e0069f9e2c9ba8ee156f13ebe8c13f9c2a06d28f31551c0400e05c56aee4553b82c427dad47cb8e5175c4a30a20311c738e7a64b927d5int,
        0x4ded00eebc4c7922ebe591b8742c8a062041be8993d45b072163e8b9f311eb3cint,
        0x62a822bee41997caed6bc7a6f1e55235e0a649f33ee1bdf6b3c92f3a79a14690int,
        0x5da1cbbe634e1d980c8eb93970cdc02e00eb9179d54f940a3c938f044fb72e7aint,
    );
    let e = lemma_reduces_square(
        r,
        e,
        p,
        b,
        0x8b4f3c48384aa42fe4ca45f85f0df9736d8b9c96fcac658c0204d9003008c93eint,
        0x4ded00eebc4c7922ebe591b8742c8a062041be8993d45b072163e8b9f311eb3cint,
        0x5da1cbbe634e1d980c8eb93970cdc02e00eb9179d54f940a3c938f044fb72e7aint,
        -0x14366165bf52642afb7a194f98c3802e386f110a10c053eda9e2a01951c591a8a3fb4c84e1446685fb1e912e4548c0248a7e1f9d7a4725c44b443525258a8aa2int,
        0x377e23dedd24f3552bd0543b9616b2031ac7774ff03fa10e86c92fafac651b52int,
        -0xc24a5c71b0a0774bd08ce5122fa190d62e0daaf5870edd4ef7bd5293b2887f3452b7e8bea4f5944a4f32be91ad318569f7eab7a5913b90e79745d1d793b2db6int,
        0xee8974b31bcd62e0cb78962fe7d984f9dea6f87161b1707f67925d30d3f97a5eint,
        0xe45cf40f1a0b4e72dce83f710bb7ee5521c12c23e49ba735d3d9a540392dba8fint,
        0x5b40f2c18a3dd19137374611fac26d0957f7fcd1941dcb0dd7dee8aa77373e23int,
    );
}

/// A power of a root, step by step.
proof fn power_16(r: int)
    requires
        root(r),
    ensures
        reduces(
            r,
            0x1fffffffe00000002000000000000000000nat,
            0xf84905e094235baeb8fa1d5d8fc74e2ce5a4db388882873eeb6083b8705290bdint,
            0xda2b08fdc369d136ee0b9ff2d4e1f00ab0efd93c8e8b941ba570863df65b1d1bint,
            0xceeba9708d0f1c78b8b07b6bfdb329e829deb3208bdf0e126f561a829ef3f46eint,
        ),
{
    let (p, b) = (
        0xffffffff00000001000000000000000000000000ffffffffffffffffffffffffint,
        0x5ac635d8aa3a93e7b3ebbd55769886bc651d06b0cc53b0f63bce3c3e27d2604bint,
    );
    power_15(r);
    let e = 0x1fffffffe000000020000000000000000nat;
    let e = lemma_reduces_square(
        r,
        e,
        p,
        b,
        0x377e23dedd24f3552bd0543b9616b2031ac7774ff03fa10e86c92fafac651b52int,
        0xee8974b31bcd62e0cb78962fe7d984f9dea6f87161b1707f67925d30d3f97a5eint,
        0x5b40f2c18a3dd19137374611fac26d0957f7fcd1941dcb0dd7dee8aa77373e23int,
        -0x3c4cdb6b269a3014080617049fd329a572418e919f2f88116695da544a00412eebb22d189b6c28cacf94310ed252f07f1d48a9d91d317ee2957bda57a63f76d3int,
        0x5678f84994c6f59bd8efb4819edc67c55f1c9d128cd7f5c83ce0241039a91bb5int,
        -0xb88bae861accc6e16c47c451fd40ee4a57622b790a7710210e19123ccb1523507b3f474b4252aba5b057b69cd26d08eb415a96b4f49aaa76a3a9c30df53a7b7int,
        0x41d055dbd8efe7572809df5115e2117c316bd2cb7a25817522921d961ddd46baint,
        0x167696bccee599bf9110f72b2bdd0140a7d20515bc7db3fc2f6b71975d95a71b5int,
        0x625a211a6887d78a2157cf2955fa5f904ec9d2e1eff9bcc0c670b35b0d2e4700int,
    );
    let e = lemma_reduces_square(
        r,
        e,
        p,
        b,
        0x5678f84994c6f59bd8efb4819edc67c55f1c9d128cd7f5c83ce0241039a91bb5int,
        0x41d055dbd8efe7572809df5115e2117c316bd2cb7a25817522921d961ddd46baint,
        0x625a211a6887d78a2157cf2955fa5f904ec9d2e1eff9bcc0c670b35b0d2e4700int,
        -0x11ee6dd0e0ba92b8709f1347cc07be0c4f1124733d4a9a7b0c647a291f59a2619dcd2ba580b92f14f9b53133e33b9a91b798585b94f9f969a2f69107381adc7cint,
        0x34cca1aa85a584364629253f2b474fb1d3878ad20d38bf5c29c7c6e127c0ed7dint,
        -0xd65f7231d2d903bc167a2ea9570516c8f1a0bb3482edb6f2558db8c17d32f4ba6e25c346c9e1dc5b8fb846c910e050e5caa71d2b01b2973cb27cb340b675057int,
        0x8dc6841d19262c6e6e0cb3d56fecec69e1ce57e52ff356484e19fb76655c72adint,
        0xc4b859e4846acadf00f28f1bfb830eb088c16454ba44fcdc85c6fc6ea380ff8cint,
        0x161fb0609644d766726036741e57c624b54640755880febe08643aaae3aca4b0int,
    );
    let e = lemma_reduces_square(
        r,
        e,
        p,
        b,
        0x34cca1aa85a584364629253f2b474fb1d3878ad20d38bf5c29c7c6e127c0ed7dint,
        0x8dc6841d19262c6e6e0cb3d56fecec69e1ce57e52ff356484e19fb76655c72adint,
        0x161fb0609644d766726036741e57c624b54640755880febe08643aaae3aca4b0int,
        -0x8b066d5efb49995f81e76ccb87bb080abb8fbffcc5597b87334e22f642e8459c033c88de62667b22a55097b9352e6628caded6ce59cd05d61b33e70d9cdd43aint,
        0x337c7b29ea305f1646657f19435b41da2c791998851a45935c57e1cf7394b22fint,
        -0xad8e89c6b4b05e94eb38e14f7efbf6e06dd106124076cfbd60093d85593d7b0bee7f9bd5c82924f40ef8ad97f43ab6eae462b652261083862cd3578db36c67int,
        0x9a1d1f62ea1f78781fdd9c1e1ec95aac9dda31ac76ff38947b83d0c9ab2ef12bint,
        0x5d60e8491882234479b21365841713a58acbf1983bb2a8314b0e249c913a8655int,
        0x488e669c214b0a3aa110c3a33f12b36c6e55570d6b732382b4d50ba5ddcdae1eint,
    );
    let e = lemma_reduces_square(
        r,
        e,
        p,
        b,
        0x337c7b29ea305f1646657f19435b41da2c791998851a45935c57e1cf7394b22fint,
        0x9a1d1f62ea1f78781fdd9c1e1ec95aac9dda31ac76ff38947b83d0c9ab2ef12bint,
        0x488e669c214b0a3aa110c3a33f12b36c6e55570d6b732382b4d50ba5ddcdae1eint,
        -0x1ef9ec76c864d27316bdd05e3656760e8e185dc61dbd61a8e57ebbcdf938ea99dd0fcdfdf1f5458cb903527c6900be46407239759e035187bbc5ba4f668b8168int,
        0x3c843b2cc5d641f605a06a333c8532aba6f07d280e0ae08020ade795b99d1f5dint,
        -0x74ab0e817f85c6267de090eb0603ed9ec9fda70cd7d3fc01643e7a68ba6e10935f68fe9c65c8d4d50ed707983fde47da4d26ae5aeceecc29977ce04f58e6c66int,
        0xe167215766b91fc9c4781a53dd8c11d3c6bcdd474f385545d42d16f1a3e7bbf4int,
        0xb7a7948382422f6abb0f6e9f728aefe6527b0a88f68d92dc2dd922fdf379d85cint,
        0x903420b52dda376974d9a9f5f739d6b40cd19714e57f6f89fd1557110de1df25int,
    );
    let e = lemma_reduces_square(
        r,
        e,
        p,
        b,
        0x3c843b2cc5d641f605a06a333c8532aba6f07d280e0ae08020ade795b99d1f5dint,
        0xe167215766b91fc9c4781a53dd8c11d3c6bcdd474f385545d42d16f1a3e7bbf4int,
        0x903420b52dda376974d9a9f5f739d6b40cd19714e57f6f89fd1557110de1df25int,
        -0x5a0aec5fd155676c484b7858d3d4492abe065724cdbbe28a8e4bcb5ed8790d8f70310919d08cb21c4c20eeb94c9cbe4ff36c0f8bb718d0cde0c907e3df44b96dint,
        0x88fafd14527700c044df618a28815f79489494d8f8b80fcd0dc7b9b32dc52284int,
        -0x1ccd8624a3b0ac9b6d5d59d5050c540147ae616a3ce905ea6be719aa23e4245a265e16dfa89366506174e8e9b1b136edd547cacf63ee80f25aa2644986295cf0int,
        0xf5cef05a86c792f2a2483268eb32c52d44bc8bcf029688ffe17ecf8f5ae80cddint,
        0x1fe53e825fde15191c40121a3214fafae1c0a22510d7bfb108385543648340566int,
        0xd6295e08f4e9221a11b88452c05c93ae0151e9b9444ce506038bf9b6feb5eee3int,
    );
    let e = lemma_reduces_square(
        r,
        e,
        p,
        b,
        0x88fafd14527700c044df618a28815f79489494d8f8b80fcd0dc7b9b32dc52284int,
        0xf5cef05a86c792f2a2483268eb32c52d44bc8bcf029688ffe17ecf8f5ae80cddint,
        0xd6295e08f4e9221a11b88452c05c93ae0151e9b9444ce506038bf9b6feb5eee3int,
        -0x91d4d5b65d17e492ba4508a5993de58d5a1f5b4309f4ebcbb910417ea672cfd6176eefd25d661e90c524c81b037f590b5fef0cf476305d17a9b1b688e1c71dffint,
        0x697e4055476b0d61af6daf7dfd773eeed3f7bd09cac4907c807517c237eae757int,
        -0x3f87326165187b767c0b41ac2c4262d510584f5996baec79af0e3308bcefa1ef2fdc2964d90775715a3ddc27ca2efdd59821709f98f9d6e669a1b8ecfef0ad52int,
        0x95b5621ed34cbdb4bb7cb36964e5d074f2507d2cd71b6f67330d2333d4ae49fdint,
        0x3eab1333086a668f0cda3beec9b920c02a48408d648e99096cb0cdfe9cfe4bcf6int,
        0xde81d65e735eb1c0d4538c863d5dd17751a70739454d5c9669633a4f5b4571b2int,
    );
    let e = lemma_reduces_square(
        r,
        e,
        p,
        b,
        0x697e4055476b0d61af6daf7dfd773eeed3f7bd09cac4907c807517c237eae757int,
        0x95b5621ed34cbdb4bb7cb36964e5d074f2507d2cd71b6f67330d2333d4ae49fdint,
        0xde81d65e735eb1c0d4538c863d5dd17751a70739454d5c9669633a4f5b4571b2int,
        -0x5c477302cb0f8e297a3ac43723d9142cc87d7bf0ccfbac77e3f97fd67aea2f2b22c11172912b55ddb2300084875928ea0e26252b75d80dfd60a31d9973eae706int,
        0x8faa6da752016baf0c8522dc6ee15979a25a3473eb1d7d28091e3935a9bf9b6fint,
        -0x449367180d8bd5eca8da54dfe363c46fa709953f079a00ce7b5c4c66f3f0345167fa3a597bd8432b4c9485573eee3ea70163af27ec8fc9654a0fe8f8174fb8c1int,
        0xef864ba2cb14bd58914e72fa863216bcfb8af0aca0445c584aa89feb9219245int,
        0x3531ef32d6fd34881e3e2515c592b700d32d3e67a266fe58ee85269f5bbd6ad71int,
        0x10c4d273f9329bd66b7257d6db2bf4bee3bbc481048706b81581dcca384753c2int,
    );
    let e = lemma_reduces_square(
        r,
        e,
        p,
        b,
        0x8faa6da752016baf0c8522dc6ee15979a25a3473eb1d7d28091e3935a9bf9b6fint,
        0xef864ba2cb14bd58914e72fa863216bcfb8af0aca0445c584aa89feb9219245int,
        0x10c4d273f9329bd66b7257d6db2bf4bee3bbc481048706b81581dcca384753c2int,
        -0xb206e7510feebf4e21cd9bcaa0d7441b56705a551fc54b82a18578331424e2e1df64c348d73dbcccc2d1c4f30b9c3e57ff3e72b0b0045107e0276206af2408int,
        0xf84905e094235baeb8fa1d5d8fc74e2ce5a4db388882873eeb6083b8705290bdint,
        -0x63b52a4916cc380386784436acb9486a2e70ded449153fa72e9b369cceeed9af21f2a27a8fe8792774f5fe8accc6f72157cec6a934086cf18e6b5bb5f23e4bint,
        0xda2b08fdc369d136ee0b9ff2d4e1f00ab0efd93c8e8b941ba570863df65b1d1bint,
        0x16fde7cea6a222475c3a2818cf93ae9b23275e6cf839b4f3671430e63bc9828dint,
        0xceeba9708d0f1c78b8b07b6bfdb329e829deb3208bdf0e126f561a829ef3f46eint,
    );
}

/// A power of a root, step by step.
proof fn power_17(r: int)
    requires
        root(r),
    ensures
        reduces(
            r,
            0x1fffffffe0000000200000000000000000000nat,
            0x9fe40baa475c01727bac7637a97bce94ae28a6032760ffa4bdd9f04622d01580int,
            0x2312049bf832307d39a351fcc0e2bdf566f8bf9a00286da469436b56349d6563int,
            0xf47121c0a8ab88536ab2853b6a80f660bf394f98ac455cc0a9331220b9d2ea9aint,
        ),
{
    let (p, b) = (
        0xffffffff00000001000000000000000000000000ffffffffffffffffffffffffint,
        0x5ac635d8aa3a93e7b3ebbd55769886bc651d06b0cc53b0f63bce3c3e27d2604bint,
    );
    power_16(r);
    let e = 0x1fffffffe00000002000000000000000000nat;
    let e = lemma_reduces_square(
        r,
        e,
        p,
        b,
        0xf84905e094235baeb8fa1d5d8fc74e2ce5a4db388882873eeb6083b8705290bdint,
        0xda2b08fdc369d136ee0b9ff2d4e1f00ab0efd93c8e8b941ba570863df65b1d1bint,
        0xceeba9708d0f1c78b8b07b6bfdb329e829deb3208bdf0e126f561a829ef3f46eint,
        -0x7d0e9140a6999260bb7b4af95e034b1caecb5aa828f7c1670a066c61e4adb1b80c22cb10a396bb4cf2d0d680a1a03f3eda371915da33fd103fe591ddd5c3f8e8int,
        0x253754cbfaa7f945e4e3ff7a54327affdc36167db19ed54937a465f01e379a65int,
        -0x3b4e092fcec63cf7fcd145dee50f61046f9c449550e84e3507c777081239f35dd47816b784acc54bf080f7c381d08338a51f97f4d85b165026ed6e968e1dd4b7int,
        0xc2d3d3f5b955bea4a004caff1f808a558e53469ecd5f315727ff8349a84b0dd7int,
        0x4410c4fa662d293f32b3bd39245172590efe86d0dd500a53a5c49c747a83c4bffint,
        0x57b3eff24ef42995f92111f34499a3d2662309297b42122e4e00603a6d09b510int,
    );
    let e = lemma_reduces_square(
        r,
        e,
        p,
        b,
        0x253754cbfaa7f945e4e3ff7a54327affdc36167db19ed54937a465f01e379a65int,
        0xc2d3d3f5b955bea4a004caff1f808a558e53469ecd5f315727ff8349a84b0dd7int,
        0x57b3eff24ef42995f92111f34499a3d2662309297b42122e4e00603a6d09b510int,
        -0x2f559a9853918e43faccaeae6c3a26f6648b41743d722e8fdc6fe145a5379f97dbe136a8f24272904de9d53c0165d1f70628d870e133fe68cf10a17744fae502int,
        0x693b7cdc44e73fd24eb4159affb1661b20d06d4f36e8959f5ab2460918414537int,
        -0xaa76902063e8598c9049a0d047eb5b941378548a160c197323d8d1478e00d85a0e5040c5c64ac0097421c7d1c1cbff925e270c86c118bd66daa357a05e53443int,
        0x863c1bd702d9013ec452962f8cbca60845a0bc76061a00b0413862a4f13d7b03int,
        0x107e90bffe7222e5739a175758e08cbb36f62b3a568df7980adabbec654850c5dint,
        0x5b80a9cfb6dc35e349656c638850e09bc993cdf4ceab1071d9cfacde772d988eint,
    );
    let e = lemma_reduces_square(
        r,
        e,
        p,
        b,
        0x693b7cdc44e73fd24eb4159affb1661b20d06d4f36e8959f5ab2460918414537int,
        0x863c1bd702d9013ec452962f8cbca60845a0bc76061a00b0413862a4f13d7b03int,
        0x5b80a9cfb6dc35e349656c638850e09bc993cdf4ceab1071d9cfacde772d988eint,
        -0x2206a9f33c8e53b2b6303e29b3517b88f17b8864db50870e0ad495c83ffbd3b29e2d3229e0fe4297c20a9c504a5107c135ef5d0e1fe3f5933d54be44128c90a7int,
        0x42b4ee49d9e4bf66718f0f2bda6963e26f234674f89e444434729148323c7b8eint,
        -0xb98dbd5a89760a995d17fc7c2d5e366ef49e26f6c4e1d1879f5c4a0a45d979a481f917420d7afd1e2fc69774bec77416c15a379a9af7a4842c3c9100b4eb4fcint,
        0x21cc389e16d1909f85a6576f8af682c40d5d093d461e562de81b3024fa4066deint,
        0xf3bb394ba43e70de44e9b5688aec61e755b976cfd01128dc19576f2ef4d2d49cint,
        0x457dc2ef10632beee36b5df732f0c51f05526a1de5869cfdb86045ab59cb9bf5int,
    );
    let e = lemma_reduces_square(
        r,
        e,
        p,
        b,
        0x42b4ee49d9e4bf66718f0f2bda6963e26f234674f89e444434729148323c7b8eint,
        0x21cc389e16d1909f85a6576f8af682c40d5d093d461e562de81b3024fa4066deint,
        0x457dc2ef10632beee36b5df732f0c51f05526a1de5869cfdb86045ab59cb9bf5int,
        -0x6819970c1342380fba2a0bb75bfe8ce4b49ea68a338df6ad0c8fbca1e638ece96a49161ed6f7db4ace04ab9881c881dc6d6d728e630c6fe84418aa5c8620d17int,
        0x64ec731ba65ff38cff52cde3f943a6500c7caf244ceb85cf4e4623043d660889int,
        -0x6b0500a3cbbaac8f9298a2629c14479df118af6fa3b3976c95019221892f0381c819b00edca9e3142e746933dc4299621aeb1b675c6c3a96449751b7ab658a5int,
        0x1d7b5cefd7ff24e1df2cc2d5aa14db259aa34c63618d97646725d889209638f4int,
        0x614476d530eba8e38c36656171c8c6246c8917a0d279c8bd611d31937e7acdfdint,
        0xd6a713906d43c39dba85df15791fa54c3deee94941f9eb32bcaeebbf218b1b8int,
    );
    let e = lemma_reduces_square(
        r,
        e,
        p,
        b,
        0x64ec731ba65ff38cff52cde3f943a6500c7caf244ceb85cf4e4623043d660889int,
        0x1d7b5cefd7ff24e1df2cc2d5aa14db259aa34c63618d97646725d889209638f4int,
        0xd6a713906d43c39dba85df15791fa54c3deee94941f9eb32bcaeebbf218b1b8int,
        -0x1187e945ed54fb3292c863c1ca4a177d16e6860528cd0fcf6e46f44510ef8b3557e36e2c7898dc86b77bee4a8d8373e17d48dabba940bbc66060d0fff1f3fdbint,
        0x8be3a11186e4274bd5ac1e7305a011e01d2ffe7e99902d37f0ccb1dd4287df36int,
        -0x3fd1dcb10d09ba3595db3fb3f7b7508500405a2e5036f77591c6a58ed76776b3bb432c67f5583b088ff200c0df711c759b13e5157375163ad6e289b00b00b5int,
        0x19deb92bf67445b4a99f81fee05a76eb754aa8614be738155ada5c0be76279f3int,
        0x1015128bed4f21bd8eb764afd9d9ec4f9fdb97499f3c1756eab2bc53d3a6572eint,
        0xec8f2c80278737119c74a0ade48224538c9f06fa606bff6f6f1089dea00b936eint,
    );
    let e = lemma_reduces_square(
        r,
        e,
        p,
        b,
        0x8be3a11186e4274bd5ac1e7305a011e01d2ffe7e99902d37f0ccb1dd4287df36int,
        0x19deb92bf67445b4a99f81fee05a76eb754aa8614be738155ada5c0be76279f3int,
        0xec8f2c80278737119c74a0ade48224538c9f06fa606bff6f6f1089dea00b936eint,
        -0x10f3ff12741033a6cebd3bb19af49a49534dc28b635033c1e25d24900da8a9f16e587284e90e7181d4f15e1e59792acd428247b5c3406db3eaef0fcd459eb002int,
        0xf4a40cc0e4c231eead26584edfc954327433045097893c163a3e1881f356a746int,
        -0x4d82c9d31371dbb6e86aa9917210c298e3ce43da0367994ade341be8db577f3540379e35719b180fcc491db4426b8d47fad62654a0ed5eccfd971a130ef348c9int,
        0x79ee324b2e5c81c5940cdf6ff9cee93b4f5a8a5a541a59841959453e96362b4bint,
        0x394ee4a398119e4d2433a6c78cd818ece44ab106419d31924432c5d301f95548dint,
        0xf81f6934813eb0ab1d45ae5b64a4bcacc6575fb20da8c0f740fb85b4a88b516aint,
    );
    let e = lemma_reduces_square(
        r,
        e,
        p,
        b,
        0xf4a40cc0e4c231eead26584edfc954327433045097893c163a3e1881f356a746int,
        0x79ee324b2e5c81c5940cdf6ff9cee93b4f5a8a5a541a59841959453e96362b4bint,
        0xf81f6934813eb0ab1d45ae5b64a4bcacc6575fb20da8c0f740fb85b4a88b516aint,
        -0x53cf24df3fb3ad5a6eff3e03efbb50846ce0ade1fc02ed764a5eab075b61dcaaf5031532ff072f2b5266a0992e9ca81ebb94e93a05bb28893be6a818dd4c7c5bint,
        0x282a60b63ebfba8ec7c56c33741fdba38bc090219deaa6f4ca901856547cf295int,
        -0x554619cebd277d07a76379286851c043e59ad9ba9355f9a2d75a335dfc0eb3c7564df2d53cb113af2cd1456c1d04183e2ea7e075e5359c76773c46e0393c6b20int,
        0xe4056268c94a2defa294014e0349e84825ffd2ebfc10d2396a5ab6f4724cd46cint,
        0x4e5c389c664697d315e6ad9aac58830b48b47ed762e3b750f98b187ee57c9b953int,
        0x77dbf502e4e89de28dc40ea397c09f2b7f2b0be481e6dd152aec455a4f6192f0int,
    );
    let e = lemma_reduces_square(
        r,
        e,
        p,
        b,
        0x282a60b63ebfba8ec7c56c33741fdba38bc090219deaa6f4ca901856547cf295int,
        0xe4056268c94a2defa294014e0349e84825ffd2ebfc10d2396a5ab6f4724cd46cint,
        0x77dbf502e4e89de28dc40ea397c09f2b7f2b0be481e6dd152aec455a4f6192f0int,
        -0x4bb6054d2280c22776d945e6e125cac7a0f420c364d8efa8bb85c0028e571f6166173c16b28511c88e88e4872766a0384021fb47f591c4a697181f1295f711b9int,
        0x9fe40baa475c01727bac7637a97bce94ae28a6032760ffa4bdd9f04622d01580int,
        -0x13e613d8d4646c8e2f58d57737c866a071ee46fd050ce76c42dc3e057058e5f1867f2219946a3ae877bb4771297cdad842153e8914e1c1b2c22131d9874154d5int,
        0x2312049bf832307d39a351fcc0e2bdf566f8bf9a00286da469436b56349d6563int,
        0x19910b3079410dca995981bb8a807a2e62b6813e3c28aef753619c2b694e92eaaint,
        0xf47121c0a8ab88536ab2853b6a80f660bf394f98ac455cc0a9331220b9d2ea9aint,
    );
}

/// A power of a root, step by step.
proof fn power_18(r: int)
    requires
        root(r),
    ensures
        reduces(
            r,
            0x1fffffffe000000020000000000000000000000nat,
            0xead29195a6624242bb359b5379c04f8b2ac453165fc526a355687cdf6f0bb5e0int,
            0x2f29f326a029d9d142fe68b13abaf26e853bf08cac3b4516599405d2caec0d28int,
            0x571ec7d83a374b1e30330ad6086d658f1c9dba64ec4c5d91328c4807150453feint,
        ),
{
    let (p, b) = (
        0xffffffff00000001000000000000000000000000ffffffffffffffffffffffffint,
        0x5ac635d8aa3a93e7b3ebbd55769886bc651d06b0cc53b0f63bce3c3e27d2604bint,
    );
    power_17(r);
    let e = 0x1fffffffe0000000200000000000000000000nat;
    let e = lemma_reduces_square(
        r,
        e,
        p,
        b,
        0x9fe40baa475c01727bac7637a97bce94ae28a6032760ffa4bdd9f04622d01580int,
        0x2312049bf832307d39a351fcc0e2bdf566f8bf9a00286da469436b56349d6563int,
        0xf47121c0a8ab88536ab2853b6a80f660bf394f98ac455cc0a9331220b9d2ea9aint,
        -0x17bf83db13b14e4eff77f00f869fc31a85e0eee2603bab263b3bca488273cd6a27ca691c0b10272b5bbde51b8d2cc0e88a2cdc8325a1dd0d64cce722e6f81455int,
        0xf92e7c07b4f05d7ce2b297d16ad2bfd95cee6a04b48c3e5f96e0a1bc0df54677int,
        -0x52c33a2d7eb6ecc6992ad1da55bdf3e91101e5bd523fef0f62d027f3259e18d3a4eb8fc95c3345e1adf56157b195784e05f3a53a9a8d94fdee672d3af16b6fa7int,
        0x6125fcd52970fc843f9775bbe7332dff15f23cfacf54b45e56ba851db059aa1int,
        0x3f25d8545cc8c1fbde4318ec3d518d92d0af507ca69b1740bc2e6b84d89650365int,
        0xddd3380db228e103e1d93c4711829158a83332c2a70a69546d0ed4cc393d39aint,
    );
    let e = lemma_reduces_square(
        r,
        e,
        p,
        b,
        0xf92e7c07b4f05d7ce2b297d16ad2bfd95cee6a04b48c3e5f96e0a1bc0df54677int,
        0x6125fcd52970fc843f9775bbe7332dff15f23cfacf54b45e56ba851db059aa1int,
        0xddd3380db228e103e1d93c4711829158a83332c2a70a69546d0ed4cc393d39aint,
        -0x3bb2a93dec089915023b7f2a57dc6affc8f6066d6befa3d6d9c14b8023da124f8c79db810dcdf2dcdd56ef3944cd1350aa433ac1bba1db5d83b05414da0067int,
        0x45c923fc68e92e3d6af1849a1b9bc0049377b8005de7419c3cb48c0c1682112eint,
        -0x4427ef30c5d406c8aa9b83bb921cd019fb5cef60742f12b60a79c4835d0c6b378fe1a18cdbe4d158cd1f4243639cdfd37caf40e92081a6d3a78007af4acad7int,
        0x23338e5e5409f3f2731cce2d6ab960d6a436a578b49776f8c5927c5db24a39e7int,
        0x1d62d804cd73a62b9d301e62ef8901a6eebc496470ba366edcf2530ebc089f0dint,
        0x70ddbe17c404c2ffe8493f904489147defd925b01675cc7160b07a0ed6ed5366int,
    );
    let e = lemma_reduces_square(
        r,
        e,
        p,
        b,
        0x45c923fc68e92e3d6af1849a1b9bc0049377b8005de7419c3cb48c0c1682112eint,
        0x23338e5e5409f3f2731cce2d6ab960d6a436a578b49776f8c5927c5db24a39e7int,
        0x70ddbe17c404c2ffe8493f904489147defd925b01675cc7160b07a0ed6ed5366int,
        -0xb0194b9b33a3b91bc39913a9351081bdbb83f5e9b98e4a68c419874189790fe11dd072dd7bc7a7cab2f1270460bd858261523f2d7ded027bb392c101003435dint,
        0xc451e18a9e3f0095272b71976676d09cbd60167bc4743d0d2db170891b9a10bint,
        -0x11a500dd034934a79cca09d95ef5e06bec9939d4271e02486b945dca0cb9457fa712cf5a378134f6d91683f5f05837421010da50681bfc04dc044ea0798c7d53int,
        0x8bed5fbfb3deb32c7300820c5e895933fe148bfacda63cdce6f6ac481f3bd5e1int,
        0xd7a85aecd887e97a578682a0bfccd4983778300e052a138df8612a1babb3168bint,
        0xa0a07c4309abe129f443a9e549e7478dbb9ffc2fb784f136bf068c9996632f90int,
    );
    let e = lemma_reduces_square(
        r,
        e,
        p,
        b,
        0xc451e18a9e3f0095272b71976676d09cbd60167bc4743d0d2db170891b9a10bint,
        0x8bed5fbfb3deb32c7300820c5e895933fe148bfacda63cdce6f6ac481f3bd5e1int,
        0xa0a07c4309abe129f443a9e549e7478dbb9ffc2fb784f136bf068c9996632f90int,
        -0x3e4372c47a0f872c917f6ea01966fc5f34446058b788df702eb49f08a1260fd842d8c363c8fd45978dd56eda5306a0a28e88613ec13234252e0e12de0d588a15int,
        0xc256ff3b2f0d6dabd18075d73e1493b11cd9a5b40b7696edc6ed294f4709fa04int,
        -0x23bcb2a326e15019d07323a12e0d9e56e990a1726960afc7a9947be78b4abb4a20c51168ca27034d34a517bd768c4ed39f99487eccee71bf3771c6fb9fa7b76aint,
        0x5895ef140d3bb2856dd9b0cb56ee5fe192168a91d368d2bc5c623e249511024cint,
        0x18a3c69d20e633ff6059f0f60bbde76730096be98f05f0517b518b784b3185df1int,
        0xb6801100eb9ac5f21b13d6c2d0daa01969479e539594947dd248f354bc9a5712int,
    );
    let e = lemma_reduces_square(
        r,
        e,
        p,
        b,
        0xc256ff3b2f0d6dabd18075d73e1493b11cd9a5b40b7696edc6ed294f4709fa04int,
        0x5895ef140d3bb2856dd9b0cb56ee5fe192168a91d368d2bc5c623e249511024cint,
        0xb6801100eb9ac5f21b13d6c2d0daa01969479e539594947dd248f354bc9a5712int,
        -0x2cc92675085410b5f4b06f6939a0f51e6a15fd41ddd8b61819852176d005c96aaa448fa6898d306456a30608b791129050b870540d2ff406ebb078929431f665int,
        0xc49572361d698604b72741ba426243ae6bfbd9eaed3d6de47f9a3474d995681bint,
        -0x2e21fec3e7d5cd4e651fc39cfa2470447f1b0d8a139e3f63b14e7fcaec9182387fa5f1866315424ad9c3cedb68124f28f71086ffdbaac2c82e60e2f238148c8cint,
        0x399e1cd706127dad1f312471ee295c630b14475b8b16f97ed02713dee86972f8int,
        0x2ba0c98a3f89c971c1234e74527790f254d1045432dd4882fab614a33d7319f46int,
        0xce3c031c36dfc30f6ff0afa21e05e253970fa454107f473019d21ee4fd447e32int,
    );
    let e = lemma_reduces_square(
        r,
        e,
        p,
        b,
        0xc49572361d698604b72741ba426243ae6bfbd9eaed3d6de47f9a3474d995681bint,
        0x399e1cd706127dad1f312471ee295c630b14475b8b16f97ed02713dee86972f8int,
        0xce3c031c36dfc30f6ff0afa21e05e253970fa454107f473019d21ee4fd447e32int,
        -0x20eaed80dd2671226412c1fd050dd695b1afc2c2b84089d76337b66ee2404c56de95a9fba91a19508b966fcc5913eef175ff488135130fbd3eacbc8413afa0e1int,
        0x1f810ce029f7f0e30d397a0c214e7620e9379b96bb3513d6d4c65a6eda7eb858int,
        -0x3ae9849d308d9934a8268c6e6b2bb50691afd71affdc8ab41d06d43fa8ee89e0f0ef9fd8929dbe468ed356bd3fa9f954c7eb9dc0d5893190d8ef0527d48f1d60int,
        0x6b7fb7658546cecd8c54146d6d1f605d8e4967bc6d81c11907c87d0f7ce3f924int,
        0x33c22625ea894f6821e0e27f7d45145627e277c58c28fa132bea443003e97e538int,
        0x43a66e886f777e5b3adc665dc4afb3f0800abf2f33ccf3ec6086d2785528b950int,
    );
    let e = lemma_reduces_square(
        r,
        e,
        p,
        b,
        0x1f810ce029f7f0e30d397a0c214e7620e9379b96bb3513d6d4c65a6eda7eb858int,
        0x6b7fb7658546cecd8c54146d6d1f605d8e4967bc6d81c11907c87d0f7ce3f924int,
        0x43a66e886f777e5b3adc665dc4afb3f0800abf2f33ccf3ec6086d2785528b950int,
        -0x142555b8b4dcdd768dcf24e5e89110724061316c3d76c9a1cdbe9c6f554c4298d84494eabcd241f91c552cdd6a2f3c28629f307dfd337c192ce13446f0a73cc7int,
        0xdd8b5d552778e5aca00828dabd1b8294e00595c083aef898576d225a1bd491f9int,
        -0x656c7f6ad42715446b5594683707bce29d19c7360dcbf07b7381b65cc1888c8939e4e1046bccfeb53cae000c16a2a937342b2f67406d307434d20e6225c6f35int,
        0xd8ce43758872826216769bd28b3ef2eb2493690ca958ac27b0172867845a20bint,
        0x736c24822845a365f42d2b75151d418d85331d5561b8f53638383462c334ec5fint,
        0x938eb9bf9a3caaf0fbff03b321c5a317cd2189dcba7ec28d840bb62dda148b6fint,
    );
    let e = lemma_reduces_square(
        r,
        e,
        p,
        b,
        0xdd8b5d552778e5aca00828dabd1b8294e00595c083aef898576d225a1bd491f9int,
        0xd8ce43758872826216769bd28b3ef2eb2493690ca958ac27b0172867845a20bint,
        0x938eb9bf9a3caaf0fbff03b321c5a317cd2189dcba7ec28d840bb62dda148b6fint,
        -0x589f67b52adf8de0cfd1a7eeb2a83845dc53e61bcee3b5c885c9e10dab327a5c4e3a1ab993859d564488625512514d7c0895e1c0bcb8f70c9304bce7f2788e3int,
        0xead29195a6624242bb359b5379c04f8b2ac453165fc526a355687cdf6f0bb5e0int,
        -0x1e28801e3899aab5a63c334d38099c430f40c816ab0805cd95a36e728f3102d0a5acb859d791ea8c1b86c48ccfa6b16ee22b64d17af13f4fd5ff3fe68e112131int,
        0x2f29f326a029d9d142fe68b13abaf26e853bf08cac3b4516599405d2caec0d28int,
        0x1ff445cb2513eff91db8a6d94a16c8ccb6f30d19885b78790853e917ec4e43d34int,
        0x571ec7d83a374b1e30330ad6086d658f1c9dba64ec4c5d91328c4807150453feint,
    );
}

/// A power of a root, step by step.
proof fn power_19(r: int)
    requires
        root(r),
    ensures
        reduces(
            r,
            0x1fffffffe00000002000000000000000000000001nat,
            0xe7ebc11b83a1d6816c21c56610b95eb93e64f27f028ffb400ba7fda039f88887int,
            0x2ffe28efc460382b1b77ef846f034fb93dafb5bdaa238b7c0d0060721a3f7d16int,
            0x5f17e6af209b39234c59d8127cbf69079eed4fe970c1b97fdf421a5948b889aeint,
        ),
{
    let (p, b) = (
        0xffffffff00000001000000000000000000000000ffffffffffffffffffffffffint,
        0x5ac635d8aa3a93e7b3ebbd55769886bc651d06b0cc53b0f63bce3c3e27d2604bint,
    );
    power_18(r);
    let e = 0x1fffffffe000000020000000000000000000000nat;
    let e = lemma_reduces_square(
        r,
        e,
        p,
        b,
        0xead29195a6624242bb359b5379c04f8b2ac453165fc526a355687cdf6f0bb5e0int,
        0x2f29f326a029d9d142fe68b13abaf26e853bf08cac3b4516599405d2caec0d28int,
        0x571ec7d83a374b1e30330ad6086d658f1c9dba64ec4c5d91328c4807150453feint,
        -0xb61f1a5e25a7a8ef5d92db563148bc56e5e8cd6a4a9ba159a1334981b185edda304127b2beb81f0b5fab393b9fa55a51373ebdcfdbd9a116f49ee6b26c39d6aint,
        0x8c2e99ba2bbfc7d6152676aea83751254193f7afdd096070c901c1fd22059176int,
        -0xa834ac9b5b0af93f9b3f86d674f254db530a4b4f724d9035396746445ac2b327196bd8dda44907847a09ab8a0611b75b7da42e8bcfecf464148e1c71dc4295eint,
        0xe0b23c894843d328c5d64cbc5ccf38965fdce94761d37d89482036ecea8c7d96int,
        0x10175d3b01afd21f5c9491d2a62b533f197447255536f46222d48e6cb226fb227int,
        0x7a8f88c79222efd2fffaffa1ada7368f2670a24854e48e01e0b0f7e81d8500f3int,
    );
    let e = lemma_reduces_square(
        r,
        e,
        p,
        b,
        0x8c2e99ba2bbfc7d6152676aea83751254193f7afdd096070c901c1fd22059176int,
        0xe0b23c894843d328c5d64cbc5ccf38965fdce94761d37d89482036ecea8c7d96int,
        0x7a8f88c79222efd2fffaffa1ada7368f2670a24854e48e01e0b0f7e81d8500f3int,
        -0x4c49e2cabe5e27b361568aed167338642203b981ae82e70e0a101e55a09e158084b20cd38513aa0035899679f7ae093b517c8019485a4ac8035cac669ae55b16int,
        0x37fe9d938bbbfbfefdb3682feb91ebb529f54e7894c2ca4114bbf1bffaa6bfe2int,
        -0x14ce4b157c7819218f0db4b97e59b2fa0dbcf50d8d391635c3ded0332a9d42aa9e8f7c643cd0367f1ec5a352a1b797656cfe3d4ff6b1884c01a2630b332c5758int,
        0x97c7fcec061cae60789027413a1ad7c5e26975d60682771e1c8584f78edfa7b9int,
        0x1fb795ef4a8a6b8b24bd78afb199e92fe17d35df003de8004a573e679d10f6f50int,
        0xd0bad42d21f94d27a9629dddab258d1231aa602aa5d0d79a9840382939661d33int,
    );
    let e = lemma_reduces_square(
        r,
        e,
        p,
        b,
        0x37fe9d938bbbfbfefdb3682feb91ebb529f54e7894c2ca4114bbf1bffaa6bfe2int,
        0x97c7fcec061cae60789027413a1ad7c5e26975d60682771e1c8584f78edfa7b9int,
        0xd0bad42d21f94d27a9629dddab258d1231aa602aa5d0d79a9840382939661d33int,
        -0x57c385d715642af601c3e80bc4fbe5b80b3c2f1e6ca9207a4d768a39eadcb222d65c4cc328366960ce630eb297fc1e0ba6912f123e6f1553c8cd081663bdd7f5int,
        0x6aa017ea1b373ab1a06ae7801a0eae86b3c1173447ad8bbba84ace102ead573dint,
        -0x3c58b0abf0b652eb6492d1560c1708903ef41f8fde700106751f23849497fba6c4a077a23e5f5b31850c8b4906aa6080cb743af9c5c4a7fe1cbffe96f5ae34f4int,
        0xc40dd4063f52f2900f7d0fdcf7364db3c73a149b8d7049ee76bbb761177c40cfint,
        0x2b3dd66e18eab0e10e797b4c22e628d6f370ce148df90f92618f9c5dedf1a1b8eint,
        0xe8b9c6bf3e1e2bf9e10dfaa1f02aecad57e1017181451d30d9aa2088e9366fc6int,
    );
    let e = lemma_reduces_square(
        r,
        e,
        p,
        b,
        0x6aa017ea1b373ab1a06ae7801a0eae86b3c1173447ad8bbba84ace102ead573dint,
        0xc40dd4063f52f2900f7d0fdcf7364db3c73a149b8d7049ee76bbb761177c40cfint,
        0xe8b9c6bf3e1e2bf9e10dfaa1f02aecad57e1017181451d30d9aa2088e9366fc6int,
        -0x7e65570854b56c4eaca9ac89c75e8aae76b346a19f0162a4bf2fc19ab3b6c270ef0413765a1c7a1efd90c9cf01e5eea33fe475867c62f382a731678d1fd81dcbint,
        0xdff1e3ed3d4128682ee922188323e30422e72ef04680ae96b4f38bab44d70182int,
        -0x4b04df013887fada497069e117a782f1e77106d781d6311edef79b5fc2b13619247254f7b57b5a02be785467053a1f0888d6b202ebe910ea653c8b4864498e4fint,
        0x37c8f12bf9d1e48e3120da36286f69482ac387cb0d6054a24b079ba5a4803367int,
        0x3d2b5d6d8e31a1fe51f44c2014e666e4c0f73eed0b00a584fa61716cf3a97ac05int,
        0xe99c2ac21c74a3da358f6a1f8bf1eb072f91745a75db144c724ada1ef00d932eint,
    );
    let e = lemma_reduces_square(
        r,
        e,
        p,
        b,
        0xdff1e3ed3d4128682ee922188323e30422e72ef04680ae96b4f38bab44d70182int,
        0x37c8f12bf9d1e48e3120da36286f69482ac387cb0d6054a24b079ba5a4803367int,
        0xe99c2ac21c74a3da358f6a1f8bf1eb072f91745a75db144c724ada1ef00d932eint,
        -0x2419e596f790e97c13fda7ec4c984e2569ef731bf3ae722c40db4387361f3efdbb494b32e368c291b305b3aa353ef391bc7d3ae8a4c26956868eaafdab7da552int,
        0xbc35030dc47258181bc569f7327bba460dfa9024db42bee7aae1e703090dfe86int,
        -0x4b971a2fd22b732a349e601cc859c5546408737d9af911f8139fda7a239a1572fe8258a2538912ee5e03b91e0c724892f3055eb45436aed962e6ebe962e3f354int,
        0xf1ffcfaf42404d4af91d944abd0db02e0db41aa52be633a9540e79bd72665068int,
        0x424686f2dd208246f47af2ac7634ad6dfe2d1da62c701ec96debd5847dfb0703dint,
        0xb8472fe2ed8dc3e24af0956fda75021f7cac85ce8720e9b8b4b67f3e6f140f32int,
    );
    let e = lemma_reduces_square(
        r,
        e,
        p,
        b,
        0xbc35030dc47258181bc569f7327bba460dfa9024db42bee7aae1e703090dfe86int,
        0xf1ffcfaf42404d4af91d944abd0db02e0db41aa52be633a9540e79bd72665068int,
        0xb8472fe2ed8dc3e24af0956fda75021f7cac85ce8720e9b8b4b67f3e6f140f32int,
        -0x7b89b8e316b42da4a7e45085bc152b2ebbf41f56e87cae299376dbdf28cc05dc923f4c2de5ec286a7d805a7bf374752df04fd7d90b2bc4a3db8232a5e2e95ec9int,
        0x74093fa5aded643dcc69d30b952fb07cc98207babe69a0c31720b4815457187bint,
        -0x2f093564b6fdc7d2467fa40b2b8b8f31e514d7eeb96af9b2dabdf366fc003f72a2f4e5b378268cfd7dcdb5e29a5e9880570aeaf78972adf4ff7823c58166d3e7int,
        0xd27e8a6b0c4580c8ea14a51fcf830eba276409defcdd7ee2f9f91eb0d637b26dint,
        0x381abbec4ed0813e3ca6d5a57240d51c716ac5f3821e56969c9bc6a9490251b97int,
        0x7dcdc2115096b0e1c33a896c81ecdfe42c700ac898acebadab0d3b9bb8a6177bint,
    );
    let e = lemma_reduces_square(
        r,
        e,
        p,
        b,
        0x74093fa5aded643dcc69d30b952fb07cc98207babe69a0c31720b4815457187bint,
        0xd27e8a6b0c4580c8ea14a51fcf830eba276409defcdd7ee2f9f91eb0d637b26dint,
        0x7dcdc2115096b0e1c33a896c81ecdfe42c700ac898acebadab0d3b9bb8a6177bint,
        -0x495b9cfc99fa18bafe3201f6c04ab8502f519dd886a3b69a503e4cc58eaaa9bb8c9a585d1c90483526c2504e55bbfc8d8933ed36b232f29cdec1fb7e1775bc4cint,
        0x5effe5c1f25d3935fca2bab8632a05742076155e3c0531c5cb51f87c89fa2923int,
        -0x15ebe638c770cdf56c3daf92020d14516d12dfca1b61a199f7c2982bc6c4d2b52a4c3617fa4166c9a9a559415bfb6c55d1828fd45bc55e3f9b654641d40d079eint,
        0x84ec9c285ff0201a44b0d769d48f6d7ce39d4ff27ae5962ecbdd4afcd138af07int,
        0x1d897273b598899c3410b6ad7635ba36b0ab33e5e91c0ecd97894765e6a67650eint,
        0x5ad1aae1e26ea5ec45f49119a865c4fd8f461d34b144d8d73d390a8fe036c6f4int,
    );
    let e = lemma_reduces_square(
        r,
        e,
        p,
        b,
        0x5effe5c1f25d3935fca2bab8632a05742076155e3c0531c5cb51f87c89fa2923int,
        0x84ec9c285ff0201a44b0d769d48f6d7ce39d4ff27ae5962ecbdd4afcd138af07int,
        0x5ad1aae1e26ea5ec45f49119a865c4fd8f461d34b144d8d73d390a8fe036c6f4int,
        -0x21712ec9d59063360ee85fb487a520a6992b7a712de2fefe7a6c3814a85e03993ffd1ee79947c4bf260a205cf80a5ec3f1949556cbe1a74ad6e810c7167d66b8int,
        0xed43acbdd25167c7e5ba3bf254b409a69b1ab1c963a508a134d135f993664749int,
        -0xb6caa8de3df380466b2839e3d5c1f6c9ea1b2b31f5adec7fd3b634a07a3fc0dc5602d9a5d5b225e47f6b4bd05f1ea492409be1534b3dc65fbd2be85f5bb0a14int,
        0x5f17e6af209b39234c59d8127cbf69079eed4fe970c1b97fdf421a5948b889aeint,
        0xe914ad8dbc2202c7a4f13d6f64c04d3fd3ab935b4726460b8ffac5cb2af39200int,
        0x6b937ebaa604f021bc949130b36fc2063631abfcc22a2b9e480fb8d2d79dbc99int,
    );
    let e = lemma_reduces_next(
        r,
        e,
        p,
        b,
        0xed43acbdd25167c7e5ba3bf254b409a69b1ab1c963a508a134d135f993664749int,
        0x5f17e6af209b39234c59d8127cbf69079eed4fe970c1b97fdf421a5948b889aeint,
        0x6b937ebaa604f021bc949130b36fc2063631abfcc22a2b9e480fb8d2d79dbc99int,
        -0x262525425e176b14a038922ea54d0f61f543571f3c95ec49001a5b916f95d6a6int,
        0xe7ebc11b83a1d6816c21c56610b95eb93e64f27f028ffb400ba7fda039f88887int,
        0x2int,
        0x2ffe28efc460382b1b77ef846f034fb93dafb5bdaa238b7c0d0060721a3f7d16int,
    );
}

/// A power of a root, step by step.
proof fn power_20(r: int)
    requires
        root(r),
    ensures
        reduces(
            r,
            0x1fffffffe00000002000000000000000000000001ffnat,
            0xa75642c51bfca550eebbd8e7c4ce1e6e618211cbb3f70e69a3038729103b02f1int,
            0x796146a72075ec503e56e45bb3926f653a19096ab22c3e7565e9f92ffe70b354int,
            0x7f649ead8e08792beb82ff17316afd181828c020b2fda88b15be0ff855fdcff5int,
        ),
{
    let (p, b) = (
        0xffffffff00000001000000000000000000000000ffffffffffffffffffffffffint,
        0x5ac635d8aa3a93e7b3ebbd55769886bc651d06b0cc53b0f63bce3c3e27d2604bint,
    );
    power_19(r);
    let e = 0x1fffffffe00000002000000000000000000000001nat;
    let e = lemma_reduces_square(
        r,
        e,
        p,
        b,
        0xe7ebc11b83a1d6816c21c56610b95eb93e64f27f028ffb400ba7fda039f88887int,
        0x2ffe28efc460382b1b77ef846f034fb93dafb5bdaa238b7c0d0060721a3f7d16int,
        0x5f17e6af209b39234c59d8127cbf69079eed4fe970c1b97fdf421a5948b889aeint,
        -0xca486c1022a09ac933cf38ff70ceb2df688166356d274d8d1a3644fc4f6e98eb97cdbbf55f66dccb1d1cf0a8e7fe1263cf020d500d15d3436a0ccf75887e2e5int,
        0xee800259ea84819edcccec263d4e9345ba36f3c70f1e7c832605238df37fe954int,
        -0xc8670bbf4afa26f05d5dfb5b56ca184b92045a0b621ad659e24b275e9d57a847289896c116b1cf3e73ed250417240686314affa359b59c30795ac71bb8b2f9fint,
        0x780eaf10f359b6ee7e4c47fc00904c7e75c2b2d1c02dad634f28095420f22561int,
        0x11f43d55a315ab2a0a4f497337ae760cb8c28608c2999f903af3164dccd21edecint,
        0xcaa82eb8dfa9bd7702c35ff225128fb400145b92e84afd19731c31c151a19820int,
    );
    let e = lemma_reduces_next(
        r,
        e,
        p,
        b,
        0xee800259ea84819edcccec263d4e9345ba36f3c70f1e7c832605238df37fe954int,
        0x780eaf10f359b6ee7e4c47fc00904c7e75c2b2d1c02dad634f28095420f22561int,
        0xcaa82eb8dfa9bd7702c35ff225128fb400145b92e84afd19731c31c151a19820int,
        -0x47dc0921bfd073880dd8a9b0a5226ed5341b381e5cf6d2998c6d41b11dd6c5f2int,
        0x64b86ee730d98a4fd2099c92042789b871b9facd86a24a467518bf93b485a8aeint,
        0x3int,
        0x4e788e878981ba00e5170bfcac864261ba74067cc7ff73cf7f59b8d1e864b1b7int,
    );
    let e = lemma_reduces_square(
        r,
        e,
        p,
        b,
        0x64b86ee730d98a4fd2099c92042789b871b9facd86a24a467518bf93b485a8aeint,
        0x4e788e878981ba00e5170bfcac864261ba74067cc7ff73cf7f59b8d1e864b1b7int,
        0x780eaf10f359b6ee7e4c47fc00904c7e75c2b2d1c02dad634f28095420f22561int,
        -0x1a1922c3eed0083d43bf6d789e31319f45c34cc74a71eff9361ef6a1087e0d80f919f9ff9946eb48a05237998442d2e916aed67c0d0f133a227f773ea0abca17int,
        0x2ec3442aada44db11ff7f98c930d4fdfbe2102c7dc0c8be8f14dd9085ed9d333int,
        -0x13f6ef3d2fd585994d598c5941d8c0d88d6d48334c699f374335b60d6d009d437479364e37c236463dd25f3455ba39a54aa974adf90bdd2d729b57b549df4104int,
        0xe205c822f700058ef2454bf130a55f4d6536c265412a7454252c063de6ea293fint,
        0x11f6f746e880abafcb0e453f2cdba596899345a382eea1b12bdd715fbc21b6945int,
        0xe4d372ea66ad657e2ce972c4864793b5780a42a433510ab986a8d9cd7001a635int,
    );
    let e = lemma_reduces_next(
        r,
        e,
        p,
        b,
        0x2ec3442aada44db11ff7f98c930d4fdfbe2102c7dc0c8be8f14dd9085ed9d333int,
        0xe205c822f700058ef2454bf130a55f4d6536c265412a7454252c063de6ea293fint,
        0xe4d372ea66ad657e2ce972c4864793b5780a42a433510ab986a8d9cd7001a635int,
        -0x512382130be42552565877c142919acf040ccd9d7473cc35983efbfe32be1acbint,
        0x7fc32697b2d483e893ece4458e11aa3f15d3bc515ff9bdae33055c4ef3f853aeint,
        0x2int,
        0xdd3d9cebe1ac7e29a6b451da25e40b00263fcab275ffac1585486670aedec5d4int,
    );
    let e = lemma_reduces_square(
        r,
        e,
        p,
        b,
        0x7fc32697b2d483e893ece4458e11aa3f15d3bc515ff9bdae33055c4ef3f853aeint,
        0xdd3d9cebe1ac7e29a6b451da25e40b00263fcab275ffac1585486670aedec5d4int,
        0xe205c822f700058ef2454bf130a55f4d6536c265412a7454252c063de6ea293fint,
        -0x8a86845c603713b32021d5b3621030aedb22d9f0510d48cc3515bdb357a3aaca825ccae9595d51afd3805477b33f934984a5c0d61f54b4c39c8b24de532cc105int,
        0x4609e670988f282e65a2648b58ae444df0c862fbd28fe5d94dead4c48f96ed77int,
        -0x46c280c5b19dff17d95b75821b3d180ad3551ebcdee342bc6340810d074b6a9911433ad013183db7e1a1adc17aae1df636b21f5313e95e5e9310574cfddf9a49int,
        0x72566ae46344f0021fe6d9e64943aa7a84cc61a23c2d3facc513b33403873824int,
        0x3f77865cc0de132b8624120ea03c30d0a92b577c1dfbfae26d4c08cac2d4cfda3int,
        0x47e24e350b06cc94d5759af26535db6b3e914c84b47f65f37b6fc42f386f995aint,
    );
    let e = lemma_reduces_next(
        r,
        e,
        p,
        b,
        0x4609e670988f282e65a2648b58ae444df0c862fbd28fe5d94dead4c48f96ed77int,
        0x72566ae46344f0021fe6d9e64943aa7a84cc61a23c2d3facc513b33403873824int,
        0x47e24e350b06cc94d5759af26535db6b3e914c84b47f65f37b6fc42f386f995aint,
        -0x197d37a5ed53d59b0c0ff657a0c3eeb58b02c8949871244f681080e20e1d3f7cint,
        0x62bc0e9021d823aff751c3a463b0ca8eff4936d0ca9073346ce5c86a0ddb1326int,
        0x1int,
        0x1db0d110b9a38debe6033562884fd68fac7c4888f00e17b3c03a215238e5b986int,
    );
    let e = lemma_reduces_square(
        r,
        e,
        p,
        b,
        0x62bc0e9021d823aff751c3a463b0ca8eff4936d0ca9073346ce5c86a0ddb1326int,
        0x1db0d110b9a38debe6033562884fd68fac7c4888f00e17b3c03a215238e5b986int,
        0x72566ae46344f0021fe6d9e64943aa7a84cc61a23c2d3facc513b33403873824int,
        -0x96779e2e4051665f8dde36ffd9c95a9018c42d107a5fa2cc1b0a6c4f7b0e4560834fe9ef6f8763d90463f317d8371a4355dc2ab67ee7dc35db3cbcf2a88921dint,
        0x85908470bb89fc4ab2d4ae6a8fecf5741271e059b2ea8a546701c2e31b8dd4f7int,
        -0x121b8b1d1f83165285baf5cb3e27b177fc073adc2a3531152eaa622f12edcbe17bf54966e3fd10ed754bd1004a449b705e256cc4642318168658ef6b506241baint,
        0x2f153b8c14d63c09e0edc4bf388c5ffd6e8d56d207bcabbdff2c87a9f3e2636eint,
        0xf4d6ec6322b2c7ce9d6d30633bc576c5a6d9688a94bc23f3e67d01163dce5019int,
        0x5e08616c4ca1779ee1c4a54acbf45e4712fb0d3f016602cdd541f12a70e6941dint,
    );
    let e = lemma_reduces_next(
        r,
        e,
        p,
        b,
        0x85908470bb89fc4ab2d4ae6a8fecf5741271e059b2ea8a546701c2e31b8dd4f7int,
        0x2f153b8c14d63c09e0edc4bf388c5ffd6e8d56d207bcabbdff2c87a9f3e2636eint,
        0x5e08616c4ca1779ee1c4a54acbf45e4712fb0d3f016602cdd541f12a70e6941dint,
        -0x2157c082dfd07d9d1dbf7234cb33e82aec1823496d78c2321b66d4dd4c027469int,
        0xb004f0d0e80444d877e0bd079815d2d5bf2e9e6e28c9a36922ef30a13e1b4718int,
        0x1int,
        0x9fa9a8b6a16e632658229e4af3ca10494b630815b71c92bde6c796626e41914fint,
    );
    let e = lemma_reduces_square(
        r,
        e,
        p,
        b,
        0xb004f0d0e80444d877e0bd079815d2d5bf2e9e6e28c9a36922ef30a13e1b4718int,
        0x9fa9a8b6a16e632658229e4af3ca10494b630815b71c92bde6c796626e41914fint,
        0x2f153b8c14d63c09e0edc4bf388c5ffd6e8d56d207bcabbdff2c87a9f3e2636eint,
        -0x14d32326b3ae8f34ab645e25860757606d35567d7028b8727e913011f67631290500aa8bac4ad283c8600a75ae6a9a1e2609145bbfda827d51857e3fca552894int,
        0x561b9e5cac2db9d81dc3e824119643ca1809f414aafa1fd736627c3a215573e0int,
        -0x3120cabab26cce7ec0a8ed150b7d105c7d261e240d3bdf494df73a0fd891c943e5e36b0a2ecec8e0f52fb5356c64c216294dc12c5687f4b1cfd88b6d2a412eaint,
        0xf443d7ba11a8e5f4fd0070988a5b1bde20388d1aa3537239f89b274629cbb6a6int,
        0xbe4d9c03b320a14d0d83d819c73408109c27a287fc64b4dcaf1fda190822e2aeint,
        0x7c337a75cc8dc6a0d440faf1e88cb85f79a322fdf2a48193feb3cc43320beb7bint,
    );
    let e = lemma_reduces_next(
        r,
        e,
        p,
        b,
        0x561b9e5cac2db9d81dc3e824119643ca1809f414aafa1fd736627c3a215573e0int,
        0xf443d7ba11a8e5f4fd0070988a5b1bde20388d1aa3537239f89b274629cbb6a6int,
        0x7c337a75cc8dc6a0d440faf1e88cb85f79a322fdf2a48193feb3cc43320beb7bint,
        -0x2c0a42fe1370a1f5f5be459b9a84e0783a359a23cce0a6115f3860bda543d40cint,
        0xdceb61b9fbac0d396c6dbbc7049714947d56327b40e17b6409b4da5d510a0eebint,
        0x1int,
        0xcab60dbf11d70db99a86d8f9cb3c6ce884f35d0d82e7a493327de103b7793652int,
    );
    let e = lemma_reduces_square(
        r,
        e,
        p,
        b,
        0xdceb61b9fbac0d396c6dbbc7049714947d56327b40e17b6409b4da5d510a0eebint,
        0xcab60dbf11d70db99a86d8f9cb3c6ce884f35d0d82e7a493327de103b7793652int,
        0xf443d7ba11a8e5f4fd0070988a5b1bde20388d1aa3537239f89b274629cbb6a6int,
        -0x892aea8c32a4718ce469bfcaaf2405bb3a7c265f5896ffb6d679d30f5cbc87a24fcdcf4d425eafc52efb04630647413c2c95d9acbb1b750b171721c516d793beint,
        0x198ee830766ac69f361b80d72b8e6e96063b4594af4fddbcd22f0935e245f033int,
        -0x52a4920f349f598bf41772d96aac09e43f332a06a1bbdc9a68b30680f65a127ae8fc5e9944506cce553c3f259c43216fe0fb1d09b9b489372b9997d525db2defint,
        0xd8340b3d0237649dff11bc66c6b38a952ff4fe9acd4a34eaf6ac81e672154299int,
        0x5014dc8a2403030895b2ab96786ccebb60d5e2bde0f78849936952500e81b4aedint,
        0x7c806cabbacb88a04f19e2b630186c0a4386a548a18dd60b22c481a5ead6d4e1int,
    );
    let e = lemma_reduces_next(
        r,
        e,
        p,
        b,
        0x198ee830766ac69f361b80d72b8e6e96063b4594af4fddbcd22f0935e245f033int,
        0xd8340b3d0237649dff11bc66c6b38a952ff4fe9acd4a34eaf6ac81e672154299int,
        0x7c806cabbacb88a04f19e2b630186c0a4386a548a18dd60b22c481a5ead6d4e1int,
        -0x2c258bb88e4896ef3fb062973cc30fdcb4d475bfe5cba5cf526a5eff9a76a6bcint,
        0x25c265f2b9d417f33ce30c1c4b1c787fab7412729598fd92ca89c42d21329b59int,
        0x1int,
        0x8f102e34a6cd607f236928f9bbd7b2b4d0cf356d93f95fde3a7c8e27a2ca6ed7int,
    );
    let e = lemma_reduces_square(
        r,
        e,
        p,
        b,
        0x25c265f2b9d417f33ce30c1c4b1c787fab7412729598fd92ca89c42d21329b59int,
        0x8f102e34a6cd607f236928f9bbd7b2b4d0cf356d93f95fde3a7c8e27a2ca6ed7int,
        0xd8340b3d0237649dff11bc66c6b38a952ff4fe9acd4a34eaf6ac81e672154299int,
        -0x55af456357093508b5ba0c7165bc3eea1dc74a950237140e3d8b3390d59802bc96743d16ed4b692c39c0e285d9c07d43cc0abbae840bd0bd972cccd294d7d3bfint,
        0x8454b3e685f3179206df40898169dca2cdf460e42745a3147fc9587422c4bec8int,
        -0x40bec3c0a1d6bb79ef46a7f992b5cea3ab404e7a5ddbf3f0098878d21932fd66953afe0b063d6813d20177572ae8a3f8e2b06c4c172c67c71487d2188967d3c8int,
        0x74a8eeed6a5fc6e8ff1dedf22d357847fb57ac4fbad72446d46f27e9bb3fac95int,
        0x2b382139d9c1595f4ff17d1fdd6564ea7300576425570472556dd6c92231d4f8cint,
        0xfa7a5c0125b1a48b3657df403362afd90c28ff557e9e982c24741214a8e01ad2int,
    );
    let e = lemma_reduces_next(
        r,
        e,
        p,
        b,
        0x8454b3e685f3179206df40898169dca2cdf460e42745a3147fc9587422c4bec8int,
        0x74a8eeed6a5fc6e8ff1dedf22d357847fb57ac4fbad72446d46f27e9bb3fac95int,
        0xfa7a5c0125b1a48b3657df403362afd90c28ff557e9e982c24741214a8e01ad2int,
        -0x58d0f3ab3bccfe373f4903ce41f90ac067eb7c591ad9ce8612f48bfba7e70f8bint,
        0xe418991978d2ee31ffb3ae8d789b169cfa131f390a169002560a05dad61e54efint,
        0x3int,
        0x73c3c7ecf7080530a9e6de4a1b91ec2df26f5ee1a3216b98ed258eb21d650f41int,
    );
    let e = lemma_reduces_square(
        r,
        e,
        p,
        b,
        0xe418991978d2ee31ffb3ae8d789b169cfa131f390a169002560a05dad61e54efint,
        0x73c3c7ecf7080530a9e6de4a1b91ec2df26f5ee1a3216b98ed258eb21d650f41int,
        0x74a8eeed6a5fc6e8ff1dedf22d357847fb57ac4fbad72446d46f27e9bb3fac95int,
        -0x256977f868530e7c74769b35f2d158db3cf2aa61d1d6b9a90f5d6e2bf93fbf68f8aebdf642af4a39bead6d1babced8cf7f181d63cf41da97b05a6f80134fceafint,
        0xba1fa1a24a507246dc25e5b4b6207dd2c09a64ac86cc824fc33932bcca1ba3a4int,
        -0x12d9c31e6d8dd4114fc29c969bd13a7be942bc38e32ae4b4d52ae6808647ffe76047726943b4099da2ac9d22b93860841ba54dd2d12bec16754bc48a15eb7034int,
        0x7f649ead8e08792beb82ff17316afd181828c020b2fda88b15be0ff855fdcff5int,
        0x1a3b9682c6c82fc4c6bc664ec6a559d8e07732ffcc1258e22b6e14da0c3cbf9adint,
        0xea6b37009cb728aecb65aa37a9d0a5db7dd4e195b91fe961e0e5977bbc1c5a8fint,
    );
    let e = lemma_reduces_next(
        r,
        e,
        p,
        b,
        0xba1fa1a24a507246dc25e5b4b6207dd2c09a64ac86cc824fc33932bcca1ba3a4int,
        0x7f649ead8e08792beb82ff17316afd181828c020b2fda88b15be0ff855fdcff5int,
        0xea6b37009cb728aecb65aa37a9d0a5db7dd4e195b91fe961e0e5977bbc1c5a8fint,
        -0x531f3191ad6b2abf053f7e8c6fd992122d15a16079b77a013b989d5c1f32d52aint,
        0xa75642c51bfca550eebbd8e7c4ce1e6e618211cbb3f70e69a3038729103b02f1int,
        0x3int,
        0x796146a72075ec503e56e45bb3926f653a19096ab22c3e7565e9f92ffe70b354int,
    );
}

/// A power of a root, step by step.
proof fn power_21(r: int)
    requires
        root(r),
    ensures
        reduces(
            r,
            0x1fffffffe00000002000000000000000000000001ffffnat,
            0x76266e6857cad001aaf17c01ffe8625f84b4abe34774dcf25cd7d758aa66988fint,
            0x95c8ed4fb9b4a2b86475aad2fbb02ac899ba33d51edec7b959c469c7acf16059int,
            0xe1d87957ff1ce4f603c7fcc4425e9f74da2417e5cfd50cdad6179c39c49e5d0cint,
        ),
{
    let (p, b) = (
        0xffffffff00000001000000000000000000000000ffffffffffffffffffffffffint,
        0x5ac635d8aa3a93e7b3ebbd55769886bc651d06b0cc53b0f63bce3c3e27d2604bint,
    );
    power_20(r);
    let e = 0x1fffffffe00000002000000000000000000000001ffnat;
    let e = lemma_reduces_square(
        r,
        e,
        p,
        b,
        0xa75642c51bfca550eebbd8e7c4ce1e6e618211cbb3f70e69a3038729103b02f1int,
        0x796146a72075ec503e56e45bb3926f653a19096ab22c3e7565e9f92ffe70b354int,
        0x7f649ead8e08792beb82ff17316afd181828c020b2fda88b15be0ff855fdcff5int,
        -0x2ad5ee8ec68051901c3f38022733b4cd7aa4cae29037e8d8aec9e9462240bd58b617d1eb8aff762cfe5f7a8af42875c474c6280247e4eadbc1a85589f749f08eint,
        0xf07a8d3b8f15ef681a4f761c4f52d301572a18b315b37d6af58f4c7fefa809bbint,
        -0x167a96621b12eb7501b959d12cc3354f67d0d13dac3739c3d7fe574b3bfc2c775f870289f79dca7c483d77f1502bfb7cd995c8caf2d6410008f48e8f909f15c8int,
        0x30aabae3819d6dcf69ae06e7f08a6ce6210c0d8f106b7775422b37212cd23f45int,
        0x19e4731ccfa2a231f053ce97134b314042cfb6cfb359ecb857e3647fe8befa90fint,
        0xfa72c7875b6fdc10d6e32d88cfcbd46024da4d3ba68bfa6d4ffe29f72cadfd54int,
    );
    let e = lemma_reduces_next(
        r,
        e,
        p,
        b,
        0xf07a8d3b8f15ef681a4f761c4f52d301572a18b315b37d6af58f4c7fefa809bbint,
        0x30aabae3819d6dcf69ae06e7f08a6ce6210c0d8f106b7775422b37212cd23f45int,
        0xfa72c7875b6fdc10d6e32d88cfcbd46024da4d3ba68bfa6d4ffe29f72cadfd54int,
        -0x58ce4399fc5536d2c096d5dd5cadfd0bb2f919e9cfb1da3e5c1c1ff32a358c24int,
        0x7a9f65b7f6e51ee603bc096b04c5c908b31ec3a2855a1e670104b137e4e9bc40int,
        0x3int,
        0xdfd2e3d4a16583979ef8feb6beb65021c5b9006309576cb2e589ca6575b201baint,
    );
    let e = lemma_reduces_square(
        r,
        e,
        p,
        b,
        0x7a9f65b7f6e51ee603bc096b04c5c908b31ec3a2855a1e670104b137e4e9bc40int,
        0xdfd2e3d4a16583979ef8feb6beb65021c5b9006309576cb2e589ca6575b201baint,
        0x30aabae3819d6dcf69ae06e7f08a6ce6210c0d8f106b7775422b37212cd23f45int,
        -0x1e2ce6157c1f37060ab2b07b60fd3c8251c7afed9f69027b0f839e6ccbeb1ac8f31e3d4df7e92f45fcb0498c8d42672a3c4d4da4d8b6fc85350e9938b62100bfint,
        0x27c136f7919710163a83736512b2dc051238d61a298951745ac6e37751f5bd55int,
        -0x347d3fa0f389afa2efc98225aac13e875d11341ace7f8470745b87747104f92213eb1ced1118ac2ac87e94385d06ce36e224ed8e8e4314b4437659027a594a7int,
        0x21dc7ded96d51bebdeaf3d9d81c3d275b60893c7bea737a75a843d6a79a10252int,
        0x10e11d35fe806f285d799ab4e670e191c5d19ef72f1b41d64a257b19c0d2043efint,
        0xdec9d12e7f533decc924593563c6be0f643cc05bc1ef62c208c27bd67ff7535eint,
    );
    let e = lemma_reduces_next(
        r,
        e,
        p,
        b,
        0x27c136f7919710163a83736512b2dc051238d61a298951745ac6e37751f5bd55int,
        0x21dc7ded96d51bebdeaf3d9d81c3d275b60893c7bea737a75a843d6a79a10252int,
        0xdec9d12e7f533decc924593563c6be0f643cc05bc1ef62c208c27bd67ff7535eint,
        -0x4eff727ec8754f97144255592b90924a3d38a6d6d8f07efbb37b73d981a214c9int,
        0xeca59dabc514c6e8703991d9fde5d7a19334477e43b604fad491f4f88c893eadint,
        0x2int,
        0xc41eaa850f90c9da95f07f053e0716333eef172b6f5779ba750e56fad1dbb771int,
    );
    let e = lemma_reduces_square(
        r,
        e,
        p,
        b,
        0xeca59dabc514c6e8703991d9fde5d7a19334477e43b604fad491f4f88c893eadint,
        0xc41eaa850f90c9da95f07f053e0716333eef172b6f5779ba750e56fad1dbb771int,
        0x21dc7ded96d51bebdeaf3d9d81c3d275b60893c7bea737a75a843d6a79a10252int,
        -0x1265882bb21184a5d8fb779e8cb06fde788fe5b2ad540973f3ed9b9ae9ad2e29b453f65fc8b8c32f35022af84a2de03cb0bae460653e7a9b84b1cbb050d0b000int,
        0x3521fce43f6759efbd14fcefd9ea32e9edc310986d4e7d3ff8748366cae3db9dint,
        -0x196909f356ba18eb45481776cf85262e81c6a2f3cf43dab4fba98f1d0f122474a26e5aa6825e1a8650848b25403c88c2b4b5a3225830ddfbebe4c04b4455c67int,
        0x80c16da77ec5a7277fa9b734b71d5e4dbc84c21ae2ea9309a9e182db85ffdd93int,
        0xe24914071df97a34038d8bf6d75fc250831c7342b651d5febc66968594709d6eint,
        0xbdd0e9af0a5a2b01b87952531e141996e0626f7b08823ea70e4ac1fc4f365eefint,
    );
    let e = lemma_reduces_next(
        r,
        e,
        p,
        b,
        0x3521fce43f6759efbd14fcefd9ea32e9edc310986d4e7d3ff8748366cae3db9dint,
        0x80c16da77ec5a7277fa9b734b71d5e4dbc84c21ae2ea9309a9e182db85ffdd93int,
        0xbdd0e9af0a5a2b01b87952531e141996e0626f7b08823ea70e4ac1fc4f365eefint,
        -0x434e69a97132b18864b1b8ba2075f0fe3dd2fc02dc0dcde3ad94e40fa87985bfint,
        0x5fda7fa9985b67cd2d6b4d8b55ab545435071cf0003827f721fe645e75f10a3cint,
        0x2int,
        0x6e94b9f35e75daf2e680f3e934267fae8eea5f0786d539352354c95bb886f86cint,
    );
    let e = lemma_reduces_square(
        r,
        e,
        p,
        b,
        0x5fda7fa9985b67cd2d6b4d8b55ab545435071cf0003827f721fe645e75f10a3cint,
        0x6e94b9f35e75daf2e680f3e934267fae8eea5f0786d539352354c95bb886f86cint,
        0x80c16da77ec5a7277fa9b734b71d5e4dbc84c21ae2ea9309a9e182db85ffdd93int,
        -0x277128886ece60839a759bbe9b260a460c0d8bf8505de48a8f907ddbdddd1d53593f31112ad8f553098ed4aa70f89aeecc57a92ff3cfce479ec839b3ee100437int,
        0x86174f384b10eee1b68d3191e75f81aba13415bb6d67800fac59afc28734b81int,
        -0x16f6579956851d0cb7774680a3cb06179de8973b4660f414911cd241c56e91f04fd329cb5f290cac284c0b882e86d78e81d86f28e224157a950ffab295b606e0int,
        0x4a4f026156f46219f8966b1201ed1e8f0cbc0cd3a5d360f5a62f472f544bb315int,
        0x152757edba1c57116e01c7d21b2aab89a018f8e43cc93c7e717ed9debda54f72cint,
        0x177587198107c1590d3e5f05e096e027a3447526a8f7c32266591cfa305f24dfint,
    );
    let e = lemma_reduces_next(
        r,
        e,
        p,
        b,
        0x86174f384b10eee1b68d3191e75f81aba13415bb6d67800fac59afc28734b81int,
        0x4a4f026156f46219f8966b1201ed1e8f0cbc0cd3a5d360f5a62f472f544bb315int,
        0x177587198107c1590d3e5f05e096e027a3447526a8f7c32266591cfa305f24dfint,
        -0x8517b54ad23b06e3b80aa957a6bd7bd8e3c8a1a57bb938a32a5fc4fa27ca242int,
        0x238466b74943fb65ee0522d8d497c8c99f0bc793bac592356fa555944be1f069int,
        0x0int,
        0x4ec20a4007c852f94323f02ac03a9891a3e0a0cfb1bdc1682dd0f1eab990ba1eint,
    );
    let e = lemma_reduces_square(
        r,
        e,
        p,
        b,
        0x238466b74943fb65ee0522d8d497c8c99f0bc793bac592356fa555944be1f069int,
        0x4ec20a4007c852f94323f02ac03a9891a3e0a0cfb1bdc1682dd0f1eab990ba1eint,
        0x4a4f026156f46219f8966b1201ed1e8f0cbc0cd3a5d360f5a62f472f544bb315int,
        -0x10365df6985a76a8396d6540e6837c5ee72507fb06092cf8851e6e7c87b9069233270615181e2a2c6be4769ab5bd20283b5d1eb9e10fc3b169bb04a65d73c3a2int,
        0xfb20eb8b1eb9a086753a5cbccf2cf931aba4dc0246008eaffd7644dfc8c62e4bint,
        -0x7a5f2cee27a5e0bf698597434893e7bc071b21ecc9308db8822a8822e02e9c48a561e195df2674bf5af4c08fbfd3f87777e3a3a6984eeb9b5fdb15eea2f9e73int,
        0xeaf27f322e4dfa80ece94b962b185e5e8a557225b99c210626b7495dade759baint,
        0x6d8e9a5da66960dfc884a791fbbdf4c90078c622656265f59d086e21fec1df25int,
        0x7e6fe4f8bb7cde452184dfc3ce2168b9e1c23896aa79f8fc9b73d7ce0d58e10eint,
    );
    let e = lemma_reduces_next(
        r,
        e,
        p,
        b,
        0xfb20eb8b1eb9a086753a5cbccf2cf931aba4dc0246008eaffd7644dfc8c62e4bint,
        0xeaf27f322e4dfa80ece94b962b185e5e8a557225b99c210626b7495dade759baint,
        0x7e6fe4f8bb7cde452184dfc3ce2168b9e1c23896aa79f8fc9b73d7ce0d58e10eint,
        -0x2cd53ba2e404117db6f9d4e197bb5ad45debb7a4d2d06a3ae8f9717baf89212dint,
        0x1afc5d6e5d22042810cfee16499f985c0ed85ef2c3fe12b14c8fc98f538bafb9int,
        0x2int,
        0x76709a7751303b53d9c8fc083991335f50eb85c4456e79a5cfd1cc49f0d0d177int,
    );
    let e = lemma_reduces_square(
        r,
        e,
        p,
        b,
        0x1afc5d6e5d22042810cfee16499f985c0ed85ef2c3fe12b14c8fc98f538bafb9int,
        0x76709a7751303b53d9c8fc083991335f50eb85c4456e79a5cfd1cc49f0d0d177int,
        0xeaf27f322e4dfa80ece94b962b185e5e8a557225b99c210626b7495dade759baint,
        -0x4d16443ceb750cb5e44516b0e158918556527f2bb6ff77e9fb46ee60f04b17e74dd8d5215ea1972f862919114db7549a2db0eec2a1b80fc1591a346e2b90416aint,
        0x1bd45cf7fe9096a00d2f28b5f7ffb96fe221da0433d4c865ac3592cb50bda323int,
        -0x4c7546562ac01f3ab0dcf391a094dbed25e3e452111106c088e1ee0a29522e6eec4c2c93e415c32e70ab3f3652bc45509499724715059ed17818d42be353d24fint,
        0xce53110dc3930fdb9dd6243278dcd462ce2bf69225e48d7c1b51401747db46e7int,
        0x2ef351d6537c890ada7f0c3f6cc15c872d161f3a531aa422fe070fcb0c97a0cb5int,
        0xc8988a008bb2f52183df65b416fc43df4bbbac62e42baa495906ea75faa21e46int,
    );
    let e = lemma_reduces_next(
        r,
        e,
        p,
        b,
        0x1bd45cf7fe9096a00d2f28b5f7ffb96fe221da0433d4c865ac3592cb50bda323int,
        0xce53110dc3930fdb9dd6243278dcd462ce2bf69225e48d7c1b51401747db46e7int,
        0xc8988a008bb2f52183df65b416fc43df4bbbac62e42baa495906ea75faa21e46int,
        -0x4720f0b08f53a6c25afcb81a8b9fb6e5557c56f8d56a2f5a87066c69c17884faint,
        0x8440d24fe02c00339676a82e8c992835768ac9fc2595a45e4d609c7b86425c84int,
        0x2int,
        0x759dfafba1a9760298cd59d23cf4850dc554df2ae057c741b74a522d40a3fdf7int,
    );
    let e = lemma_reduces_square(
        r,
        e,
        p,
        b,
        0x8440d24fe02c00339676a82e8c992835768ac9fc2595a45e4d609c7b86425c84int,
        0x759dfafba1a9760298cd59d23cf4850dc554df2ae057c741b74a522d40a3fdf7int,
        0xce53110dc3930fdb9dd6243278dcd462ce2bf69225e48d7c1b51401747db46e7int,
        -0x4339ba62ad4f1b2597001d8b9869e34ca7863044e31bbce92cc8b75e2306fc4f79680c60c9eee3e9624a1be57185a4799db0d6b60660512ce50c35e6bfab3af4int,
        0xce7cd213f127a19ac9dd788ad2748ca48e18c0dc56d2cdf7e96df74f338dc346int,
        -0x3af6b134b9075082d314a0fe4cc8d96e9f0aaf89c3d88d0970939c960065b129123fdaec3edacc69ac9d77feda2b812c03e0cdac8c92efa04e71ab206abbc2cfint,
        0x456681dd1607a852d7a75c9c4790048ecaf06f2d8f02bf9a8b4d6dd04675d614int,
        0x2fe154e3d3428bfca546cdd11d8d01d7af54ad1bfcf03a371b2d4ea8ded22a92dint,
        0xb37e5c0c841afc093205c0f955e721de3b5da674a363141e975cc05278696109int,
    );
    let e = lemma_reduces_next(
        r,
        e,
        p,
        b,
        0xce7cd213f127a19ac9dd788ad2748ca48e18c0dc56d2cdf7e96df74f338dc346int,
        0x456681dd1607a852d7a75c9c4790048ecaf06f2d8f02bf9a8b4d6dd04675d614int,
        0xb37e5c0c841afc093205c0f955e721de3b5da674a363141e975cc05278696109int,
        -0x3fa565d8eacc4cb11162e8fdd3bdbc3762522532ac430e676f2130a1d06edc6dint,
        0x4aac479badade18a86c18870b3393d27cb06ce43077c37c181319a56bec55f0int,
        0x2int,
        0xe8f7e63b7d7895b45feebb76d429f23f4031b43840fc0a53af8438469cc9e663int,
    );
    let e = lemma_reduces_square(
        r,
        e,
        p,
        b,
        0x4aac479badade18a86c18870b3393d27cb06ce43077c37c181319a56bec55f0int,
        0xe8f7e63b7d7895b45feebb76d429f23f4031b43840fc0a53af8438469cc9e663int,
        0x456681dd1607a852d7a75c9c4790048ecaf06f2d8f02bf9a8b4d6dd04675d614int,
        -0x2cc9fee33cc04f50aa89698df1c5398fb0977aad4c4ebcb5cd0ae1b8fccc04258d47d4be7d6d8144c91f854a8342af0eec8b4c4e1def582e716164738a717a77int,
        0xc44194b7d8736e6e98a63037d9c32e85733add8d66033064c62c890555e74261int,
        -0x6abd6ca7022c7c50242a1ec7e787793afbc8bc8b8a4817419a7133dfa7a9c44a648cb1dfd22ede572a4a1d90ab43a9b30649fd951bd43c293dac14532b79fccint,
        0xe1d87957ff1ce4f603c7fcc4425e9f74da2417e5cfd50cdad6179c39c49e5d0cint,
        0x10efb4d3c156e1455879a63c50dea861f07b629b286359ef3fe8d7559cafefd84int,
        0x45d7c8324b15bc18ee9a7e33b5f9a96bb77fc76d92f3dd1c3132a040c7ae09fdint,
    );
    let e = lemma_reduces_next(
        r,
        e,
        p,
        b,
        0xc44194b7d8736e6e98a63037d9c32e85733add8d66033064c62c890555e74261int,
        0xe1d87957ff1ce4f603c7fcc4425e9f74da2417e5cfd50cdad6179c39c49e5d0cint,
        0x45d7c8324b15bc18ee9a7e33b5f9a96bb77fc76d92f3dd1c3132a040c7ae09fdint,
        -0x18c3eff76704411147b53570f155286b37ba8c9c807565726a97e33bd5539a52int,
        0x76266e6857cad001aaf17c01ffe8625f84b4abe34774dcf25cd7d758aa66988fint,
        0x1int,
        0x95c8ed4fb9b4a2b86475aad2fbb02ac899ba33d51edec7b959c469c7acf16059int,
    );
}

/// A power of a root, step by step.
proof fn power_22(r: int)
    requires
        root(r),
    ensures
        reduces(
            r,
            0x1fffffffe00000002000000000000000000000001ffffffnat,
            0xe0dcae19e0db9aa5765548039a6c99445cfd0037f4bbdbe14e9997d4ea6e75cdint,
            0x51ab60b23dfc890fae700c7e1c0f617d696292fd4c26148ee3b64e11c5287951int,
            0xe98b800667a8d3659720e0c92186e1e73b91dc7b4d774ef523dde1ed76c5e4fcint,
        ),
{
    let (p, b) = (
        0xffffffff00000001000000000000000000000000ffffffffffffffffffffffffint,
        0x5ac635d8aa3a93e7b3ebbd55769886bc651d06b0cc53b0f63bce3c3e27d2604bint,
    );
    power_21(r);
    let e = 0x1fffffffe00000002000000000000000000000001ffffnat;
    let e = lemma_reduces_square(
        r,
        e,
        p,
        b,
        0x76266e6857cad001aaf17c01ffe8625f84b4abe34774dcf25cd7d758aa66988fint,
        0x95c8ed4fb9b4a2b86475aad2fbb02ac899ba33d51edec7b959c469c7acf16059int,
        0xe1d87957ff1ce4f603c7fcc4425e9f74da2417e5cfd50cdad6179c39c49e5d0cint,
        -0x5db61d7293868846097c0fce138b2135d89c05a9a8ebf9cd814acacdbb635355ab120aad2abc81ad8cb85c1e4ecd824b7aa48e6f6d912cef84bd5c5e35e9b89eint,
        0xd9d9420edc69f9dc8303e987c3d642286ba0c999e6d8ae1b05c7cad6e310277bint,
        -0x46a62542fe2091fbfde9f16fe6389c7df67ee38f172ff28c273ce7107d956ab749c1b5271e4f81c0725c5f9c1124c9114840684e788ab396d211e376ccb28051int,
        0x39543fe196975e30e6a749a3e983f18ca998f93b4ced0e7383390b8e4d0ed7f5int,
        0x37dd595f2424b17adbad49a5afc1bdb0b2bd8cecfbfe37ed946a4d0336aee2c94int,
        0xfbd712066eec555fc41901ef933635d6c12df4319a5adb9c59b5ed0771a2689dint,
    );
    let e = lemma_reduces_next(
        r,
        e,
        p,
        b,
        0xd9d9420edc69f9dc8303e987c3d642286ba0c999e6d8ae1b05c7cad6e310277bint,
        0x39543fe196975e30e6a749a3e983f18ca998f93b4ced0e7383390b8e4d0ed7f5int,
        0xfbd712066eec555fc41901ef933635d6c12df4319a5adb9c59b5ed0771a2689dint,
        -0x594c99a738ee770be24181d7a7ec3e76679a365965f996d015f8ac3a3d73a563int,
        0xc3057df817f85c16f80a83ac5982130eec02217ca572a64ae33d00cad4f2d49eint,
        0x3int,
        0xcd5e7825292ef9f8cf4eef567d78e3acaf2aa62bb5e940f012e991ed37f76155int,
    );
    let e = lemma_reduces_square(
        r,
        e,
        p,
        b,
        0xc3057df817f85c16f80a83ac5982130eec02217ca572a64ae33d00cad4f2d49eint,
        0xcd5e7825292ef9f8cf4eef567d78e3acaf2aa62bb5e940f012e991ed37f76155int,
        0x39543fe196975e30e6a749a3e983f18ca998f93b4ced0e7383390b8e4d0ed7f5int,
        -0x209d8b762cfe9bb6f74bd875d6c19d78f032ff958d32ef30c6de6bdaf3c306ee2532822b1f6384677fcb8b6c298e82a705bae7be11be06a2eacad5fe77b5ab6bint,
        0xbc41239beed4c4456bfbd924f382095a0fc20439f6a6c0eecd065b224f292bf3int,
        -0x48d6502d3748470f1aa1720345c1cf1f20498fd58d7e26e6be691f43961aee13df3bb55992f5bf31786e37e31117645f416f341083c04cf4c9bc557367bffc9int,
        0x51e283173e8c2c8d51441177d3a9b25d7c0b3eaaad0b812897dfa5bed220d1c6int,
        0x1229d1ed5fbf581bf3c4a7e3a359123ce50f0419575afc96898284c7b9f693445int,
        0x82eff5fa20bbcf781aa9a3284a390801039e6869cd713994edc9c21c08916655int,
    );
    let e = lemma_reduces_next(
        r,
        e,
        p,
        b,
        0xbc41239beed4c4456bfbd924f382095a0fc20439f6a6c0eecd065b224f292bf3int,
        0x51e283173e8c2c8d51441177d3a9b25d7c0b3eaaad0b812897dfa5bed220d1c6int,
        0x82eff5fa20bbcf781aa9a3284a390801039e6869cd713994edc9c21c08916655int,
        -0x2e6dbd9cdcdab8fe00503cbad1932af23efd2a3dc949c2e9e6f863113fb4ec3aint,
        0xdb6d9331b1bbfcdac47dc379f313808e9453b740007f7252f3b590ed29838dfint,
        0x2int,
        0x4511058c510832abbbf8c29dd22d215d1a9d3d755efa6dad9663a17668dd5ef4int,
    );
    let e = lemma_reduces_square(
        r,
        e,
        p,
        b,
        0xdb6d9331b1bbfcdac47dc379f313808e9453b740007f7252f3b590ed29838dfint,
        0x4511058c510832abbbf8c29dd22d215d1a9d3d755efa6dad9663a17668dd5ef4int,
        0x51e283173e8c2c8d51441177d3a9b25d7c0b3eaaad0b812897dfa5bed220d1c6int,
        -0xfaabb0ac84ddfe72153db9b39f86a5efebf20a88e56d3d197c07ea5c6bb00dd6b2d8d82e8787ae6a1afb2fd53e82182b777a1de7d0c0db9b819cea1f58df5ddint,
        0xe78e9f0967802f2609120b82d4bbf30945b274ab06d54141649595f0a6f1d894int,
        -0x9498c888acff67973a596b09638f6737cc9ab557ea8173421fc3b90a85e24de86ff4870499241e3e6fd0631517bcdd5038286c53f519754e4542906610912ddint,
        0x1dcf2a500edc6a0bb8848627a0327581aca9e418a70145ce1d3efcb0375454ffint,
        0x69fb869688e7a3c467ef33de9a8e96e1465ed7995d453795c1d32195d90f5218int,
        0xeebeab361cddf99111289b865f7337d37f1d874ee506cc6fbce1d91571d23108int,
    );
    let e = lemma_reduces_next(
        r,
        e,
        p,
        b,
        0xe78e9f0967802f2609120b82d4bbf30945b274ab06d54141649595f0a6f1d894int,
        0x1dcf2a500edc6a0bb8848627a0327581aca9e418a70145ce1d3efcb0375454ffint,
        0xeebeab361cddf99111289b865f7337d37f1d874ee506cc6fbce1d91571d23108int,
        -0x54a7e1e14fbc27c39cdb1aa8931a4f553e8e580268de5c428930504ab8c655f9int,
        0x7289d1390ca5dc0960685d37511c323cb1b97890c2b13ed6f678e7e9abb24cafint,
        0x3int,
        0xb3caa0aebe1a1bd63c8bde15f3159a83c30b0a94b5e9a6909b3b2130fc686bafint,
    );
    let e = lemma_reduces_square(
        r,
        e,
        p,
        b,
        0x7289d1390ca5dc0960685d37511c323cb1b97890c2b13ed6f678e7e9abb24cafint,
        0xb3caa0aebe1a1bd63c8bde15f3159a83c30b0a94b5e9a6909b3b2130fc686bafint,
        0x1dcf2a500edc6a0bb8848627a0327581aca9e418a70145ce1d3efcb0375454ffint,
        -0xed8c7e568a1bf97baa590b2d30a9424ca9b520eb843974671fb810a751a08656780c5b64bd6ce2737165c0d8cc4edeed6ce0ca719c526a8e83b7ab28e2cd748int,
        0xa6264f54303b0ec216458f726fd4ec2f263713effff045b3aef7edd3b2880ee3int,
        -0x13b152ad410fa3d016ebc435667eedab4086e34cf56fa787725a81aa6c9d251caa4083d359b263ecd25f3577b1555c02713a5ada2c445da84aa3b8c5ea2a526int,
        0xb72048429ebe232c251fcbc15b37f432373890d632af8062378ebb79aead05b7int,
        0xa35b5cede4859baa706ff1a0d94080d9a8eaaf2ae510ff1ae1a16d4fa57dfce0int,
        0x53f45180aa9e3f9e6eacc04cf714e00001b71c2a37b068d121760716ce0a5d26int,
    );
    let e = lemma_reduces_next(
        r,
        e,
        p,
        b,
        0xa6264f54303b0ec216458f726fd4ec2f263713effff045b3aef7edd3b2880ee3int,
        0xb72048429ebe232c251fcbc15b37f432373890d632af8062378ebb79aead05b7int,
        0x53f45180aa9e3f9e6eacc04cf714e00001b71c2a37b068d121760716ce0a5d26int,
        -0x1dc4e547061c59e7b83293f7445cfda75e3282d7ec595a7593aa211a94e82745int,
        0x3dd77594fe8cc39536af99310f007cb2ec9cfe1d709c33b007152e0df7f44e99int,
        0x1int,
        0xa20343d73015cd9c624bd05955138c2f2b5c686da7018027135a03181ca72656int,
    );
    let e = lemma_reduces_square(
        r,
        e,
        p,
        b,
        0x3dd77594fe8cc39536af99310f007cb2ec9cfe1d709c33b007152e0df7f44e99int,
        0xa20343d73015cd9c624bd05955138c2f2b5c686da7018027135a03181ca72656int,
        0xb72048429ebe232c251fcbc15b37f432373890d632af8062378ebb79aead05b7int,
        -0x5230502e03eb4001303c51a1f9fcdd8b97088bf7b5945628e3e5a4bb717410f6a2978709390342df1a9da03f577cb1a409d5131626dd5f56e0e004dcfe2b031fint,
        0x20f505130fd1324bfd30c571a09922e76c0bdfc043ab5ccb5fd338ee2c927ed6int,
        -0x2e732229ab520af2dc7654a192d0b0fa85dbed5959d932082336957eb959930a3f07e32fff0eac42fc6ac58e1e1c7a467d172db89aeaffaecb4a2fd2ce88c2bcint,
        0x8ff15a9ff67ccc1e533499de62492786906188109da7663728d19a3c652823b1int,
        0x247ff46ef40feadd79111d87d041c61af3506b4d2fac6a554678204fb59b59f73int,
        0x9c2a733fbefcfb21b9d2c16015c4bccdea75af3f0a2aa8e0df48e50fed2f9788int,
    );
    let e = lemma_reduces_next(
        r,
        e,
        p,
        b,
        0x20f505130fd1324bfd30c571a09922e76c0bdfc043ab5ccb5fd338ee2c927ed6int,
        0x8ff15a9ff67ccc1e533499de62492786906188109da7663728d19a3c652823b1int,
        0x9c2a733fbefcfb21b9d2c16015c4bccdea75af3f0a2aa8e0df48e50fed2f9788int,
        -0x375fd632b957dada48560fe50fed70f8de29f650fd3da2c464099db6d96a956aint,
        0x4fc1fbf0a5f06f39892dc8f4c392d308fb1877ccf1a02492a707e99ccb4105beint,
        0x1int,
        0xf5745ed34cc823b02aa90991e1e759512b6ced7c622b576dfdade81df421456fint,
    );
    let e = lemma_reduces_square(
        r,
        e,
        p,
        b,
        0x4fc1fbf0a5f06f39892dc8f4c392d308fb1877ccf1a02492a707e99ccb4105beint,
        0xf5745ed34cc823b02aa90991e1e759512b6ced7c622b576dfdade81df421456fint,
        0x8ff15a9ff67ccc1e533499de62492786906188109da7663728d19a3c652823b1int,
        -0x61e01e2a41defbd4611d64dbe8529cf7414d2f68e18db950d5db7b1bbd564b0b84ce0576b1b28e8014704addd93dceb00bd19d36c3a90a931a26317694a50177int,
        0x7b251cefa5a8e5c90ff9b76e2f61e99368464b3608dcd1a2460f46c2d37753a3int,
        -0x1cb2dfaba1d2f1081b35473c6b1e0165db27874eeb3200506ae6719f2f4881669d72ee004b28706b60fd9b241023ecc24c88ea9327966f053c20ee12af5d50c6int,
        0x775439a980c6afb9aa4362cfe28947a06e0bc886bc94f427dc4023dedfca120dint,
        0x237d7a1f365810f1b033a76ff7480260e5a70d648443a2965fa4e1a2c242e81d9int,
        0x9c24944f33249e9b20ba0fa3cddc1e5cb8d9f5936b9e89233a8da095c75b0dd9int,
    );
    let e = lemma_reduces_next(
        r,
        e,
        p,
        b,
        0x7b251cefa5a8e5c90ff9b76e2f61e99368464b3608dcd1a2460f46c2d37753a3int,
        0x775439a980c6afb9aa4362cfe28947a06e0bc886bc94f427dc4023dedfca120dint,
        0x9c24944f33249e9b20ba0fa3cddc1e5cb8d9f5936b9e89233a8da095c75b0dd9int,
        -0x375dc1467dffbcc1bdab37c3d86584e6d76ec786823998dd3e945992da2a418aint,
        0xd8ff75a895ca786e492240c9f5e5241a17a78090f44d833b2a8ed16e2df54fe3int,
        0x2int,
        0x4f92d9df3f16c1987227e65998f644a992d42bee4bb86d0bf5b8288429887d30int,
    );
    let e = lemma_reduces_square(
        r,
        e,
        p,
        b,
        0xd8ff75a895ca786e492240c9f5e5241a17a78090f44d833b2a8ed16e2df54fe3int,
        0x4f92d9df3f16c1987227e65998f644a992d42bee4bb86d0bf5b8288429887d30int,
        0x775439a980c6afb9aa4362cfe28947a06e0bc886bc94f427dc4023dedfca120dint,
        -0x1a4deb97598057a8586bba92d7513b6faadd89d660c921edfa6c8942c8ccd52d54ed3082358a344972e86d1aefc5a7183d5642aba6ff98a2da228c3309bee95dint,
        0x9dfd43d70c2de716faecf745e27a9a460ce5e1ec39dcdefe60006af57219264cint,
        -0x13b91c0541e7df9d0d0b17f3c862dda550c6ef5ccb06e7482b3da87d1b79b33efe17844e7d928cacebd4c494082326493443072ab8c463a369ec704b4076912fint,
        0xba8f978b29dd12df83292e9fbc7243d97fc200e1d4cc9e6ccec5acb390dec90eint,
        0x189e67b740ca06762218ff96ba74e9e81d1ef00fd5e3d0ccd50aabdc2d1adee79int,
        0xa170bad84d5a9a9521fc0b56897b575be3645d80d42e68baf996ba4993a55e82int,
    );
    let e = lemma_reduces_next(
        r,
        e,
        p,
        b,
        0x9dfd43d70c2de716faecf745e27a9a460ce5e1ec39dcdefe60006af57219264cint,
        0xba8f978b29dd12df83292e9fbc7243d97fc200e1d4cc9e6ccec5acb390dec90eint,
        0xa170bad84d5a9a9521fc0b56897b575be3645d80d42e68baf996ba4993a55e82int,
        -0x393ea0d5c0e28aaa5d3b17ed6c4e29c71a64b3f0137257852ec5f130d8e19628int,
        0x6be4129e1801fd3484f237f702fa321ea832065e85d9aee29f8d39598d96f9c2int,
        0x2int,
        0x824f7461f43db6d460e119497eeca059b712fa6cb668192f4cc499d22d0941d4int,
    );
    let e = lemma_reduces_square(
        r,
        e,
        p,
        b,
        0x6be4129e1801fd3484f237f702fa321ea832065e85d9aee29f8d39598d96f9c2int,
        0x824f7461f43db6d460e119497eeca059b712fa6cb668192f4cc499d22d0941d4int,
        0xba8f978b29dd12df83292e9fbc7243d97fc200e1d4cc9e6ccec5acb390dec90eint,
        -0x43589976dc89e81043a4512972f9ea4ade865245fdff93cf5508a0b2204416f4156358936b584d35e8fa2b8e4aa64ec0cafae2966ad84b8feddd9417c54fb816int,
        0xda484a8aaccb51a3e517ca0a6d97828f6db0e798e0ae0a8ed3ddadd82ed347deint,
        -0x303563852cbd79f72307cbb84c90efc348010b7a1f6ca8c9d9d6b0746ad5a757e53823bf0f7ccc2b181ed8ba34ce0ef9a0001414bcf625f15018a92ab8a10c78int,
        0xe98b800667a8d3659720e0c92186e1e73b91dc7b4d774ef523dde1ed76c5e4fcint,
        0x2777428b87f58c573d92d5a85c1c30dee397a8ac3596d8a3a5e5ad797c48c22bcint,
        0xd2765cb6db1067cf9872c0d13a27f4f9fe908e77ce7d58aaaff2e013321c65d0int,
    );
    let e = lemma_reduces_next(
        r,
        e,
        p,
        b,
        0xda484a8aaccb51a3e517ca0a6d97828f6db0e798e0ae0a8ed3ddadd82ed347deint,
        0xe98b800667a8d3659720e0c92186e1e73b91dc7b4d774ef523dde1ed76c5e4fcint,
        0xd2765cb6db1067cf9872c0d13a27f4f9fe908e77ce7d58aaaff2e013321c65d0int,
        -0x4aa09068ea149b3603cd9da440b1f6cf7dd64249196a5a2dacb8b8928c71b643int,
        0xe0dcae19e0db9aa5765548039a6c99445cfd0037f4bbdbe14e9997d4ea6e75cdint,
        0x3int,
        0x51ab60b23dfc890fae700c7e1c0f617d696292fd4c26148ee3b64e11c5287951int,
    );
}

/// A power of a root, step by step.
proof fn power_23(r: int)
    requires
        root(r),
    ensures
        reduces(
            r,
            0x1fffffffe00000002000000000000000000000001ffffffffnat,
            0x95157efdcd319dd5716e31afa243160ae00cd2d982b69e1d381d1a9e402f4518int,
            0xd485e1162882f65a23961ebeb9a85e94de19463814a70ac532fd41c28d48e037int,
            0x65e6e610ba5187910070f4b5691a515af1fb33138eb9e8d9854b6b46c273db1aint,
        ),
{
    let (p, b) = (
        0xffffffff00000001000000000000000000000000ffffffffffffffffffffffffint,
        0x5ac635d8aa3a93e7b3ebbd55769886bc651d06b0cc53b0f63bce3c3e27d2604bint,
    );
    power_22(r);
    let e = 0x1fffffffe00000002000000000000000000000001ffffffnat;
    let e = lemma_reduces_square(
        r,
        e,
        p,
        b,
        0xe0dcae19e0db9aa5765548039a6c99445cfd0037f4bbdbe14e9997d4ea6e75cdint,
        0x51ab60b23dfc890fae700c7e1c0f617d696292fd4c26148ee3b64e11c5287951int,
        0xe98b800667a8d3659720e0c92186e1e73b91dc7b4d774ef523dde1ed76c5e4fcint,
        -0x34d66ac259309e635f4d9a19069e04512dcfaeb2f58e2a6626167f734e4ee176c3d83fb286a293e6a1441cbcd063e17db5ed1f174e2c2f7005af4dd237013fe0int,
        0x2c3ed72f72ef730b8ddbf12293c79a896e69983b2079d95c1163612be3fe8e21int,
        -0x4b8c515c0de342730232f54630aac55bfce9c74322c4154b0a131e5932aa817c8d964538dc20f21287c6a5a563e5989474e50ec805aef3d91178245092549b9dint,
        0xeefff8f02e14f57c1cf3d465d852173ee4b2fd743ec43ffc822bed980468cbd5int,
        0x433825c973a5c245194d7140a009ab8349a1ffbf703d1bf06ec0da62480a5ba75int,
        0x7708d131628508487ac9b21cb0789ea44704e9f8af5a67933deda6f17c4001deint,
    );
    let e = lemma_reduces_next(
        r,
        e,
        p,
        b,
        0x2c3ed72f72ef730b8ddbf12293c79a896e69983b2079d95c1163612be3fe8e21int,
        0xeefff8f02e14f57c1cf3d465d852173ee4b2fd743ec43ffc822bed980468cbd5int,
        0x7708d131628508487ac9b21cb0789ea44704e9f8af5a67933deda6f17c4001deint,
        -0x2a354366e4f10df5464539ecb11b800227d7570a4eb5d4dad729f5198820f880int,
        0x88ff8b328ef9daf9829165220674ed9bccd2caae6b566b8867016b00b64f3b76int,
        0x1int,
        0x91594ac49a7e8be3fe390778a5317676437856242e891015cb2c560058be93bcint,
    );
    let e = lemma_reduces_square(
        r,
        e,
        p,
        b,
        0x88ff8b328ef9daf9829165220674ed9bccd2caae6b566b8867016b00b64f3b76int,
        0x91594ac49a7e8be3fe390778a5317676437856242e891015cb2c560058be93bcint,
        0xeefff8f02e14f57c1cf3d465d852173ee4b2fd743ec43ffc822bed980468cbd5int,
        -0x603b876616f8d62728a80dce08077d0fb0167901d0b4de3c677c3e4cd95f756373adf57e34dbe1af8af0b0bdee7cfe1cb597fea8968d5f3e4a11a9f601da26faint,
        0xc88f0dcba3f05ad11e776212b71d9a748672b2e69e439497a497a161288eca22int,
        -0x4f1e57c8105c353e3bdba9ec8c89c8137ac795a8ee08ccb1a689fc1172ddfd99ca315fda115341f3c3926b0b69e03cfd2ae5f5f6e1d16c5c7f0f6dd29b596501int,
        0xec0a1db94c82714acf7d276713dc8f7e340a828706e1f7cfc2a73face3bbcb24int,
        0x3efb63ca69ab4e74b232ba7c7ad52544e3df74cbdaee73535ae433ac2fa4a09e7int,
        0xe01ff398f55df1ff42c7550f8e8ab5506dcf47b0e1b6c60ca585a17f98b40ffeint,
    );
    let e = lemma_reduces_next(
        r,
        e,
        p,
        b,
        0xc88f0dcba3f05ad11e776212b71d9a748672b2e69e439497a497a161288eca22int,
        0xec0a1db94c82714acf7d276713dc8f7e340a828706e1f7cfc2a73face3bbcb24int,
        0xe01ff398f55df1ff42c7550f8e8ab5506dcf47b0e1b6c60ca585a17f98b40ffeint,
        -0x4f78c37ecb764594d6159cae93bac7afd13425065ef1eeeb5f30a570ea3905b7int,
        0x46500e409c56abf15ead786007332416767ac42bae30c6bb836b174102ab0adfint,
        0x3int,
        0x68eee899840a30cbe6cd614162bdba65cfe089f64367e6bd952885dff2aafa1fint,
    );
    let e = lemma_reduces_square(
        r,
        e,
        p,
        b,
        0x46500e409c56abf15ead786007332416767ac42bae30c6bb836b174102ab0adfint,
        0x68eee899840a30cbe6cd614162bdba65cfe089f64367e6bd952885dff2aafa1fint,
        0xec0a1db94c82714acf7d276713dc8f7e340a828706e1f7cfc2a73face3bbcb24int,
        -0x449d189431a5949de83ceaa683a77fe63ee54f294943edc3d4cb226b14937c02c78b9e211b69abcd5c7be0731deb4d3a94f82a4e9d21950e7abc7d07ccd2ebf1int,
        0x485a17c7d09271cd9bca115dc166bc1a03de8a3df027094e317c33019a2f668int,
        -0x4d2bb05cc42fc207bb7eca4be1fe76d644ac7bd9d1f220416bad630ab2c756eb3a1d6ba9850848b00efc719698069df7239c3575496c99b25e5a8c9367ca2f5eint,
        0x134628ad2f1e001886cc339f392b9d16aee977c149357229252dd7cafcf6031cint,
        0x339941a6d60e0e694cc037bdfa0f956fb50dbc2acb04443dfa6c0bb549906ecc2int,
        0x942605ab9f58dddcf10b6969092a9af7a72b54bcb3e481f8bcbd70ec79148c6bint,
    );
    let e = lemma_reduces_next(
        r,
        e,
        p,
        b,
        0x485a17c7d09271cd9bca115dc166bc1a03de8a3df027094e317c33019a2f668int,
        0x134628ad2f1e001886cc339f392b9d16aee977c149357229252dd7cafcf6031cint,
        0x942605ab9f58dddcf10b6969092a9af7a72b54bcb3e481f8bcbd70ec79148c6bint,
        -0x348812902f0f061045741ff8d26ce7b8c972899c4b49c23db43851fe3f043416int,
        0x15fbb7966b0b2a6a9a94b359145e0ef96f119ef10db7c4238284612916888891int,
        0x1int,
        0xc0f7b2805b13c0b2acdedd50f7963ca895bfe6d8faaff67f195015f584e09baaint,
    );
    let e = lemma_reduces_square(
        r,
        e,
        p,
        b,
        0x15fbb7966b0b2a6a9a94b359145e0ef96f119ef10db7c4238284612916888891int,
        0xc0f7b2805b13c0b2acdedd50f7963ca895bfe6d8faaff67f195015f584e09baaint,
        0x134628ad2f1e001886cc339f392b9d16aee977c149357229252dd7cafcf6031cint,
        -0xa4d9b9dd5def0b283e92a580bce994c26fadd3a14448448852576f145a4ab7828410e5dd9f90bb3917bb16c65b28a092d2c29286f951a82c3f437ef43a7ff11int,
        0x674a140c6e2ddb1e41b6fbc4c5dc46b8edc1a573dd9eb86bef8fac4d43edb200int,
        -0x83b9aaec620cee5facb015fa34e826455db75c3a93d924c9b7442dfc6678c6edf6ec13bcce79f6c6f7adab300d394edf61ce9989a973cf5267e9f870683776int,
        0x81fa819ac5598c94236e3220daf491201801026ad0c7d17a71f47b7bf081bcfeint,
        0x991e5d1c2235cbc513d289b9b129e6dd449ae1eaf4140a92194eda0bcc75c416int,
        0x68c966ac6f023cde2e340b35408653b1853168f482ebd50cea2a14cf41e757e2int,
    );
    let e = lemma_reduces_next(
        r,
        e,
        p,
        b,
        0x674a140c6e2ddb1e41b6fbc4c5dc46b8edc1a573dd9eb86bef8fac4d43edb200int,
        0x81fa819ac5598c94236e3220daf491201801026ad0c7d17a71f47b7bf081bcfeint,
        0x68c966ac6f023cde2e340b35408653b1853168f482ebd50cea2a14cf41e757e2int,
        -0x2527efe88f6aa1dcfcf4b29cdac2567c746ee522b01fdb8ac91faf8540e51d95int,
        0x997c5391dafa1091de844e00e5c3e46cd87c840bb9697f23333f02629fb6335int,
        0x1int,
        0xa1a64812bb3491b7cc531d64876f41cd7d55e05066623792ae0deabb09a3b9a7int,
    );
    let e = lemma_reduces_square(
        r,
        e,
        p,
        b,
        0x997c5391dafa1091de844e00e5c3e46cd87c840bb9697f23333f02629fb6335int,
        0xa1a64812bb3491b7cc531d64876f41cd7d55e05066623792ae0deabb09a3b9a7int,
        0x81fa819ac5598c94236e3220daf491201801026ad0c7d17a71f47b7bf081bcfeint,
        -0x3a346ea0bddd441ce41d06aaf68d7c9bd7ad7cba9de79a4bc5dd8f80c3223e73d77cfdaa5b5eb80d9b1b683c5e0ef3f11ef2f295668cd37d81a5de96ace58691int,
        0x1d03d6befe0b38427870cd1bbc228794dac7f1192e9740b00c771826ed24a01cint,
        -0x17668a8a3b98d2e094a4659f53a0d376abc49635052f2e5101f4cf7b138ddf725d16784b24b6d0a6eb248202b4ea3a9a6b0f84543522b8fc7567452f4e3b4a2fint,
        0xd09fd6030c9d3b401f7d056a80c78e5728dcaa6e990b1c49c1b1fd8d555cc7f7int,
        0x135cb90cfbfda439e20417ae15e9226845a74b65b0ba2c0ed585d218f156064e7int,
        0xea738489c4722dc6a28ab4869dc5afd44468985cb7c59b8d646cb58d732c0910int,
    );
    let e = lemma_reduces_next(
        r,
        e,
        p,
        b,
        0x1d03d6befe0b38427870cd1bbc228794dac7f1192e9740b00c771826ed24a01cint,
        0xd09fd6030c9d3b401f7d056a80c78e5728dcaa6e990b1c49c1b1fd8d555cc7f7int,
        0xea738489c4722dc6a28ab4869dc5afd44468985cb7c59b8d646cb58d732c0910int,
        -0x532223419c8eed35f5ccb771d0219fbdc2b5058b1614e299e9c74e6b40e72857int,
        0x92ce6b8b139e6719bafc2d1d378203582ae87437b36dec553a0c54929eac2ff9int,
        0x2int,
        0xdc5e645e4b61c1946010eaaf95739711a801ba2d55e8135839bd38cf46a8bb4eint,
    );
    let e = lemma_reduces_square(
        r,
        e,
        p,
        b,
        0x92ce6b8b139e6719bafc2d1d378203582ae87437b36dec553a0c54929eac2ff9int,
        0xdc5e645e4b61c1946010eaaf95739711a801ba2d55e8135839bd38cf46a8bb4eint,
        0xd09fd6030c9d3b401f7d056a80c78e5728dcaa6e990b1c49c1b1fd8d555cc7f7int,
        -0x7f5bc2ecc343d357cf15c14f01093f439b06891a47adb3fc3e9cc45f7640e8489c9351f054b07d68b770831b28ced5ae6121d0344496d10f7ab8d04a90347211int,
        0x2ff6bea6e7490bdca31321ac9a219b257349abff8fcf3e4387a393200ebe8b74int,
        -0x3c49160c31d45375de443be6e68652c5c78dbfc805532a178af0f1eeefad8287b70c11a4274c682dac99131aac8b98ee04a568c9c20d7e9de6ced4707439000eint,
        0xe94aa81ce055dd1aeb4c33a29fd4f36726a1e365169f6ffbfd7721a2526577fint,
        0x3ab057ea54883fa8154923bb12665ff30710684d126572349d9c6ed75fd29fc6cint,
        0x31382743d72bb2e5c1d07bfe0714e444d6422c00774e99ccfc82e645cf9489a1int,
    );
    let e = lemma_reduces_next(
        r,
        e,
        p,
        b,
        0x2ff6bea6e7490bdca31321ac9a219b257349abff8fcf3e4387a393200ebe8b74int,
        0xe94aa81ce055dd1aeb4c33a29fd4f36726a1e365169f6ffbfd7721a2526577fint,
        0x31382743d72bb2e5c1d07bfe0714e444d6422c00774e99ccfc82e645cf9489a1int,
        -0x1173d99691ce5c4cfa2af66907fbc16f448d8d2ae8f2beabde961ea34c1014eeint,
        0xb220a288b30ba6c0db587cf0f5b3a331b91aa26e897be79b98094342c2bd38e7int,
        0x0int,
        0xc39f34726ccc248de88495a6af6047f3f6103000f5bb0baa7d2c45f17d7c2857int,
    );
    let e = lemma_reduces_square(
        r,
        e,
        p,
        b,
        0xb220a288b30ba6c0db587cf0f5b3a331b91aa26e897be79b98094342c2bd38e7int,
        0xc39f34726ccc248de88495a6af6047f3f6103000f5bb0baa7d2c45f17d7c2857int,
        0xe94aa81ce055dd1aeb4c33a29fd4f36726a1e365169f6ffbfd7721a2526577fint,
        -0x7e6c88aa4bc973275b3748f3434e8ee3f16c92fbee0c42270d117c17a12a8f8239868664516962bf471bfb98e389f62b412220f10fde39e77bc0385efb3cb91int,
        0xcbaa32f878f41abcd473b046d86066556e1165372dc33c623f531464b11484daint,
        -0x4b62638fb90561d0f09255f81c394dec638f83fd34c7cc7f03798f0eb85ac282b501bf433b7b50b94ce9c0ba067c53cb4e21e01c427e6f2e0098c613f5384eint,
        0x88eba2c965a3e1c8b87fdfd8ca1a56a7406056fdeb5ccf11ac8d902180bf425fint,
        0xac442ca76a8d01ab7bf8f0ea8105b7827829ca9ea3bc143c8251b750b17c98edint,
        0x6a8eb6cee0f2373e6f0b0244ec1c884ab21ee3e20f78ba551aa9ed5ea9f210b3int,
    );
    let e = lemma_reduces_next(
        r,
        e,
        p,
        b,
        0xcbaa32f878f41abcd473b046d86066556e1165372dc33c623f531464b11484daint,
        0x88eba2c965a3e1c8b87fdfd8ca1a56a7406056fdeb5ccf11ac8d902180bf425fint,
        0x6a8eb6cee0f2373e6f0b0244ec1c884ab21ee3e20f78ba551aa9ed5ea9f210b3int,
        -0x25c8ad0ffffe0a3daa3b21341063a5e6e6c0dec71db17f3bb0c8700fdb305a2dint,
        0xad6a7838cc85251f5dc4080e233ed71259e851fc5eeee9e10d4c3d029ccba162int,
        0x2int,
        0xb5657671bcac0762194b7159cb5ff35846e10db5c2d6b618f50dc80aeeab6f5int,
    );
    let e = lemma_reduces_square(
        r,
        e,
        p,
        b,
        0xad6a7838cc85251f5dc4080e233ed71259e851fc5eeee9e10d4c3d029ccba162int,
        0xb5657671bcac0762194b7159cb5ff35846e10db5c2d6b618f50dc80aeeab6f5int,
        0x88eba2c965a3e1c8b87fdfd8ca1a56a7406056fdeb5ccf11ac8d902180bf425fint,
        -0x44cda8ba6c1a3db56cbf754a2f9ec7c296ca37318c211194348af46ac065c6cef952dff15c2fb89c27ee45e3e000873337e942c1ac8ca84d8713c4635a46958int,
        0x142c26a89e95115a86ea4adb199b734b6d6611856af2e8ba3404bf0c8b5f027aint,
        -0x19f78421b884fa4247a015ab5921829701dc5aefc0fd96b95e6faea6bf64631f73d601380399e4795282450272d4e20d399673583b3499ac5df1a69395de33f1int,
        0x65e6e610ba5187910070f4b5691a515af1fb33138eb9e8d9854b6b46c273db1aint,
        0x195b287f2b99c42f1d9c8440ddfef73b7f063520bdcf0083732fab81c7a8456f1int,
        0xeac893792df9f700898e9bf68aaef9187ae666e6e33c0b58ffa82b9200a349e9int,
    );
    let e = lemma_reduces_next(
        r,
        e,
        p,
        b,
        0x142c26a89e95115a86ea4adb199b734b6d6611856af2e8ba3404bf0c8b5f027aint,
        0x65e6e610ba5187910070f4b5691a515af1fb33138eb9e8d9854b6b46c273db1aint,
        0xeac893792df9f700898e9bf68aaef9187ae666e6e33c0b58ffa82b9200a349e9int,
        -0x53404c5d39072c513a436f4ccdc67bf44371a959fba537833c0d78bb3420b3a5int,
        0x95157efdcd319dd5716e31afa243160ae00cd2d982b69e1d381d1a9e402f4518int,
        0x2int,
        0xd485e1162882f65a23961ebeb9a85e94de19463814a70ac532fd41c28d48e037int,
    );
}

/// A power of a root, step by step.
proof fn power_24(r: int)
    requires
        root(r),
    ensures
        reduces(
            r,
            0x1fffffffe00000002000000000000000000000001ffffffffffnat,
            0x53caf768ccb1f5b05f5fba6ee6c0868f731d5326bd354f5216337f534eff8cd1int,
            0x718af374dce5a7673652725faee09af8ecad73457527dccfcf8b9b43c3024ffaint,
            0xb2948d9d566a5b37713d984c7559eac7f503eeaeb0900ab018b068238020c7d5int,
        ),
{
    let (p, b) = (
        0xffffffff00000001000000000000000000000000ffffffffffffffffffffffffint,
        0x5ac635d8aa3a93e7b3ebbd55769886bc651d06b0cc53b0f63bce3c3e27d2604bint,
    );
    power_23(r);
    let e = 0x1fffffffe00000002000000000000000000000001ffffffffnat;
    let e = lemma_reduces_square(
        r,
        e,
        p,
        b,
        0x95157efdcd319dd5716e31afa243160ae00cd2d982b69e1d381d1a9e402f4518int,
        0xd485e1162882f65a23961ebeb9a85e94de19463814a70ac532fd41c28d48e037int,
        0x65e6e610ba5187910070f4b5691a515af1fb33138eb9e8d9854b6b46c273db1aint,
        -0x3bfe3a40672adbd8e48500cf86870cb4a8f43fb1105ee995666103f77da657d32f066e8ab3421c025a04b866dab9d9a7c9ce5e408883b101232a15b89698d555int,
        0x4654e04f405d3e42a48675b6ef6382f5473be066e34c1a32e91b283c873d3907int,
        -0xe62088b190ed3730d5e356e999a26ce066dc7bc23de0e30e276d3f0990cfb183bcb32ac711be18ca7e5c167a996dd986a9dc174def2a3360ddaa939572bcd20int,
        0x1a909b225b9ae356fa3f3b1486e3639cde8da96895c8ca69851f2fbe4ef938a8int,
        0x1a0cdecfec22c6a7023392265b74b5883d8ce265baa6fdcc5243dbcfa57e363b8int,
        0xad813ca2b12ded34db1e8e284e3dee23d6213b307bc786a5ba2c3c8625394455int,
    );
    let e = lemma_reduces_next(
        r,
        e,
        p,
        b,
        0x4654e04f405d3e42a48675b6ef6382f5473be066e34c1a32e91b283c873d3907int,
        0x1a909b225b9ae356fa3f3b1486e3639cde8da96895c8ca69851f2fbe4ef938a8int,
        0xad813ca2b12ded34db1e8e284e3dee23d6213b307bc786a5ba2c3c8625394455int,
        -0x3d85c5c4ef9d526cc4c2c40d01764c23de1876542c86d46056970aca046a00a4int,
        0x30ebbb220295fe695a85b44336ce5c72afbc913bef39c4066ec230fa99751a75int,
        0x2int,
        0x4ed8963953e705df35e2202fda1d4d60c99f91f656a2ae24179fddcef6e90608int,
    );
    let e = lemma_reduces_square(
        r,
        e,
        p,
        b,
        0x30ebbb220295fe695a85b44336ce5c72afbc913bef39c4066ec230fa99751a75int,
        0x4ed8963953e705df35e2202fda1d4d60c99f91f656a2ae24179fddcef6e90608int,
        0x1a909b225b9ae356fa3f3b1486e3639cde8da96895c8ca69851f2fbe4ef938a8int,
        -0x5cd63a8fae0f8250bc5f10157743d0786d8948fffce592de9b8e7c10fde75f4ec7cb4d676c36de727f3887b250f24668b341f304bd9a62ea318c74092817729int,
        0x20dce865bc063a4db6c5571780464a9429c72ee9c3cda3d6a7f89ffe70e44ed0int,
        -0xfa3aaf04fd4f40813f73d1d30582d3eda9f8c6920bafc4f383d399b437a045305d4509f12413248fa7530be2b8ad1e34da3512bb4000a23ffb8adcc62e46c9int,
        0x39e0bc573ba3d2b66672733d97844a190f6d0ac44dfa7238de0b18e16e4c4f47int,
        0x2ab4ecde958eff7c6ec7d1fa4312933c6268fd0c297387da169143c50e8c160cint,
        0x61d88af8ff4ef7b9303920ca8bf7b2cfafe252ca13c0d17a14a54d8ebc2e2a9cint,
    );
    let e = lemma_reduces_next(
        r,
        e,
        p,
        b,
        0x20dce865bc063a4db6c5571780464a9429c72ee9c3cda3d6a7f89ffe70e44ed0int,
        0x39e0bc573ba3d2b66672733d97844a190f6d0ac44dfa7238de0b18e16e4c4f47int,
        0x61d88af8ff4ef7b9303920ca8bf7b2cfafe252ca13c0d17a14a54d8ebc2e2a9cint,
        -0x22b1e2ebcd941be9dfe722f030945cd9dc22e2a8a538119df0740ad6c8d708e5int,
        0xa031235abd3313b5fead2b9539ab1ddcf2fa128a14c629e905946da20daffb67int,
        0x1int,
        0x46668951b9f321784770b977242d6303396e2746ff101844e5e888aaa56ecea5int,
    );
    let e = lemma_reduces_square(
        r,
        e,
        p,
        b,
        0xa031235abd3313b5fead2b9539ab1ddcf2fa128a14c629e905946da20daffb67int,
        0x46668951b9f321784770b977242d6303396e2746ff101844e5e888aaa56ecea5int,
        0x39e0bc573ba3d2b66672733d97844a190f6d0ac44dfa7238de0b18e16e4c4f47int,
        -0xb499f9cc9d9f92111e1c9c14ed0a1c9dc3ba7b1760c23569290465e04be9d4778fd59e4522e65b58d42cdf789c292626922d3b5e220cd99873fc5f14e3053bdint,
        0x8bfe91cd5acdb203cc65d5dcc412bbdcaf3db110bc396ed72bcac9cf82bc2172int,
        -0x4a3cffefbf2ec56c7c62990f7f9b9a0b6b21dce9efbe860c098da931793e0917758f95d4d9bd00c21fbeb636a05e9d8191fb93176315c2c0c482a93c74e0165int,
        0x32b9645440f88b2543d7352c5665bc7e1d5a702be69df22f3354c72df03f8b18int,
        0x830ceb177de02416478b6411b8f7d0742431299673bb44695745ae2746ce55beint,
        0xdcecfb0371ffbc843024f28a5689e1bf1494d33d6d9759bd4d27e49abf76024cint,
    );
    let e = lemma_reduces_next(
        r,
        e,
        p,
        b,
        0x8bfe91cd5acdb203cc65d5dcc412bbdcaf3db110bc396ed72bcac9cf82bc2172int,
        0x32b9645440f88b2543d7352c5665bc7e1d5a702be69df22f3354c72df03f8b18int,
        0xdcecfb0371ffbc843024f28a5689e1bf1494d33d6d9759bd4d27e49abf76024cint,
        -0x4e565e01b3e7df9b00446f168b52eb0cbff2af045a21878899cee715df7ad243int,
        0xd3b0a7a75f837375905b0c95b17a520525cb56ef415377a65764b03851be0179int,
        0x3int,
        0x22c582dab0cce78d5cd4ad7bc7b06119ecfc2ac604ff7c0f1342779fc11e2859int,
    );
    let e = lemma_reduces_square(
        r,
        e,
        p,
        b,
        0xd3b0a7a75f837375905b0c95b17a520525cb56ef415377a65764b03851be0179int,
        0x22c582dab0cce78d5cd4ad7bc7b06119ecfc2ac604ff7c0f1342779fc11e2859int,
        0x32b9645440f88b2543d7352c5665bc7e1d5a702be69df22f3354c72df03f8b18int,
        -0x4e2cf8f19058a33a3c30cbc40eb403d5134a75e826662913dfe8c757791b0021bad2edc2997a8e151c72659556b16fa62d85a98c1851511ddd600121f09d65bint,
        0x820ffb1b427a11de0e14fd0a62aea22131ec62e68e2e91be7bab48e5b2204f46int,
        -0x390550266a692850d418277ab3bf0232779fd25eaf9022914cdf16439f5148d5c05a73bc1077b91daded82ebe879a79b42c876d5eb2bc5ca63cfb55d18f0132int,
        0x56f71dffc8d6f74dc6f0a71455b838d60e0923dd59a7d8df92c1c3e7bbd42040int,
        0x76c3803b782f31706805dbdc3dffbd5d915c37f53be0bc99e3c41730ce8f3f7dint,
        0xdf6f2d5375471cb4149e0bdacfdafff85da4811d75ac5584b371055002b811deint,
    );
    let e = lemma_reduces_next(
        r,
        e,
        p,
        b,
        0x820ffb1b427a11de0e14fd0a62aea22131ec62e68e2e91be7bab48e5b2204f46int,
        0x56f71dffc8d6f74dc6f0a71455b838d60e0923dd59a7d8df92c1c3e7bbd42040int,
        0xdf6f2d5375471cb4149e0bdacfdafff85da4811d75ac5584b371055002b811deint,
        -0x4f3a14ebd3c54416762f4c9b3a2c6fb3d59026e4998e4352b66a593cb09f5ce4int,
        0x658c3b5af830f1fe16e065ce3c71e42da1f4232e68ed0f68720675d202a42712int,
        0x3int,
        0x205d8318a24f67f74bef209ad23fa20a4ad9e63bef33924c95fe58d5ba4884e3int,
    );
    let e = lemma_reduces_square(
        r,
        e,
        p,
        b,
        0x658c3b5af830f1fe16e065ce3c71e42da1f4232e68ed0f68720675d202a42712int,
        0x205d8318a24f67f74bef209ad23fa20a4ad9e63bef33924c95fe58d5ba4884e3int,
        0x56f71dffc8d6f74dc6f0a71455b838d60e0923dd59a7d8df92c1c3e7bbd42040int,
        -0x7cc14b66166d4bde34254d44388df9f0bb8ac4196fe0b785cb797d896a5f392f6711f355e49eb04f392547ab5a194275a69b3c53754d656f7ab0d8d2215f889int,
        0xd3e620cec935b5459f2f74768797ac16a8d269955f227ddad5db8cf216a1043bint,
        -0xa79ba6c76eb7fe02e52afb280d9f616b490350cb188a9879a87d454e892ef489abe1af9ba25333c59e3f9e9da02b49823d6f908b9389c46914b3e2331999538int,
        0xe16aa3c8fb221745aa315f19f9a296c384068fb139a182f84208164301932934int,
        0xa1b6ab4fede2cf816072c2d189f2b9cc300471e21407cc2d619aa02684942cd3int,
        0x3eeba55fa2909077d9af762072eee3b9953dcd4d583c463573b6afcd8d17471cint,
    );
    let e = lemma_reduces_next(
        r,
        e,
        p,
        b,
        0xd3e620cec935b5459f2f74768797ac16a8d269955f227ddad5db8cf216a1043bint,
        0xe16aa3c8fb221745aa315f19f9a296c384068fb139a182f84208164301932934int,
        0x3eeba55fa2909077d9af762072eee3b9953dcd4d583c463573b6afcd8d17471cint,
        -0x164f8fa1a7555523c49235c08f4c17b423573c8a5dad91dfeae538268dd92ac5int,
        0x9c8883a85feb588b8168a433023f32ecc67560c4d027d48dd8b62002c8b28007int,
        0x1int,
        0x90a910eeb0e766ac2c3dd6d7e0645743688bd17c67d7507b30ff9c5abde6d990int,
    );
    let e = lemma_reduces_square(
        r,
        e,
        p,
        b,
        0x9c8883a85feb588b8168a433023f32ecc67560c4d027d48dd8b62002c8b28007int,
        0x90a910eeb0e766ac2c3dd6d7e0645743688bd17c67d7507b30ff9c5abde6d990int,
        0xe16aa3c8fb221745aa315f19f9a296c384068fb139a182f84208164301932934int,
        -0x5a5558feb9c5abec63e52a325d85098d2273ae2c525b6ccd5814333b0042e9556fe0a3a29947f46ecd4256fabe9f4165009cbf7368e2da68d435c6ed3e45369cint,
        0x36f9dad4caf990a6e2011fc4c8bf1746aecb3223d2405fda5b795ee6b81f8e15int,
        -0x46617e815cedf5a9325f3a4fb41e3f52f3678ff540aca9e48764dd89dd33f67c82e4e78b4ebbfa81d53c6fecb265ffe541008125ebdbf7b3995f209294106751int,
        0xbc5a09879a490f71780d88aa8d1be148ad6ce33b80ff1347be865430058bb5dfint,
        0x3b8dee4783a487b0095e400f160524f9efd3ac86f95c80c6521ab3a52039e6201int,
        0x65fc9040b74d7caad97d5f94f434b88e25b19e4e0ea67ffffe1547857e12b89int,
    );
    let e = lemma_reduces_next(
        r,
        e,
        p,
        b,
        0x36f9dad4caf990a6e2011fc4c8bf1746aecb3223d2405fda5b795ee6b81f8e15int,
        0xbc5a09879a490f71780d88aa8d1be148ad6ce33b80ff1347be865430058bb5dfint,
        0x65fc9040b74d7caad97d5f94f434b88e25b19e4e0ea67ffffe1547857e12b89int,
        -0x2429c1821170efc21bdddb2292e13f72a9afaa9215312ea5e4c51410210aa6fint,
        0xe4dac2e0a9d15b2ae84f4f5987d1778364ef108abbd5eecde0ecc3033942346eint,
        0x0int,
        0x4a1935e0ed581806eac8a1b0b688f9e155dc7fd274ff97da5b1d5c4fbfc310b0int,
    );
    let e = lemma_reduces_square(
        r,
        e,
        p,
        b,
        0xe4dac2e0a9d15b2ae84f4f5987d1778364ef108abbd5eecde0ecc3033942346eint,
        0x4a1935e0ed581806eac8a1b0b688f9e155dc7fd274ff97da5b1d5c4fbfc310b0int,
        0xbc5a09879a490f71780d88aa8d1be148ad6ce33b80ff1347be865430058bb5dfint,
        -0x26a9a380f10b60fdd13a71edd1fe2b2381c5ef37f06a3d7bc53867763e78011c907a57de483f4726ebdc2ac2f3be3a68efb8329a832bbc37a715f4e21d913505int,
        0x53d6ef7140e8c493e6f0223f0a6b90ed1c89874bb053eb72d163f5c7d77b955fint,
        -0x312374d45b66763ffabed717ef4b4358214338201c752b3648892598079a80fdc36cfe899429aaba12afe57fc32f5fc90caa16ebbbab1379c4e08aa996e560efint,
        0x22123f7c6e0872efab419e117b571f8d55e3198a98792f81a1c4df49ffadd326int,
        0x305f1f7b70f0405b887aa0aa5b0f03ca0aca7635dc30fc5a7447854752311594dint,
        0xbe3ec140b0b8dd7823a8e8ed1303743fb079c9b2c3a1103b76b29b51f153feb4int,
    );
    let e = lemma_reduces_next(
        r,
        e,
        p,
        b,
        0x53d6ef7140e8c493e6f0223f0a6b90ed1c89874bb053eb72d163f5c7d77b955fint,
        0x22123f7c6e0872efab419e117b571f8d55e3198a98792f81a1c4df49ffadd326int,
        0xbe3ec140b0b8dd7823a8e8ed1303743fb079c9b2c3a1103b76b29b51f153feb4int,
        -0x43755c7e7b15b0f8183a6cfe3869075570536adb827ecd85fae24d66970cccbbint,
        0xfa99809f2279d73f9d4f92fc926dfd7fef8c9a3342f8afb3ccadd4cbda2c1489int,
        0x2int,
        0x8e93333553135cfa51eadd064375edac2df6e461fb371c25357bc7bdab77917dint,
    );
    let e = lemma_reduces_square(
        r,
        e,
        p,
        b,
        0xfa99809f2279d73f9d4f92fc926dfd7fef8c9a3342f8afb3ccadd4cbda2c1489int,
        0x8e93333553135cfa51eadd064375edac2df6e461fb371c25357bc7bdab77917dint,
        0x22123f7c6e0872efab419e117b571f8d55e3198a98792f81a1c4df49ffadd326int,
        -0xd74f695704f0166ac7b8f96a0de1600a899c56f5a4b04c3ed8fcb81e3c9320299ee4c238055b33f5f5930356102238d73c782fe277e3a6a76e12302e9e0214fint,
        0x78ac3f096499aa8f7bee9a3d8a78a6fcad5e498579bc990ab81d9db997f192ceint,
        -0x19b9f7fb174ac4e4af43741d41a957c1a5b144823f1a8ef7a533c617a205d2ec42bf8864ff9b1a40d4a785e03dbe5f5198c0b58ffb6b47b01f0d9facea4023dint,
        0xb2948d9d566a5b37713d984c7559eac7f503eeaeb0900ab018b068238020c7d5int,
        0x9fb6affd45bd0d3be6de69635f431a78cbea6dc9798f177ef493213ebd7bd1c2int,
        0xfd9f917828195448e8cbf2b60c22a6a96a6fb89653ce6bec5d24a9d8b9059463int,
    );
    let e = lemma_reduces_next(
        r,
        e,
        p,
        b,
        0x78ac3f096499aa8f7bee9a3d8a78a6fcad5e498579bc990ab81d9db997f192ceint,
        0xb2948d9d566a5b37713d984c7559eac7f503eeaeb0900ab018b068238020c7d5int,
        0xfd9f917828195448e8cbf2b60c22a6a96a6fb89653ce6bec5d24a9d8b9059463int,
        -0x59ee77e7cb5d0018451ac8e61cb71e20102cf77d5b90b0e1319ab4a39682da2eint,
        0x53caf768ccb1f5b05f5fba6ee6c0868f731d5326bd354f5216337f534eff8cd1int,
        0x3int,
        0x718af374dce5a7673652725faee09af8ecad73457527dccfcf8b9b43c3024ffaint,
    );
}

/// A power of a root, step by step.
proof fn power_25(r: int)
    requires
        root(r),
    ensures
        reduces(
            r,
            0x1fffffffe00000002000000000000000000000001ffffffffffffnat,
            0xe7cf4c93770c8943defe8a61e4391c3bdb2efec85d7a03f7207d36d874913b6dint,
            0xa1fbfcfda48f7ffd894dbc2a338e570bd53cce899a4ca11cd375d782b1c9b099int,
            0x6a017fc5a07938cede1900553dbd006e3ad7d4083892ecdf7b3ba38ad5b3f953int,
        ),
{
    let (p, b) = (
        0xffffffff00000001000000000000000000000000ffffffffffffffffffffffffint,
        0x5ac635d8aa3a93e7b3ebbd55769886bc651d06b0cc53b0f63bce3c3e27d2604bint,
    );
    power_24(r);
    let e = 0x1fffffffe00000002000000000000000000000001ffffffffffnat;
    let e = lemma_reduces_square(
        r,
        e,
        p,
        b,
        0x53caf768ccb1f5b05f5fba6ee6c0868f731d5326bd354f5216337f534eff8cd1int,
        0x718af374dce5a7673652725faee09af8ecad73457527dccfcf8b9b43c3024ffaint,
        0xb2948d9d566a5b37713d984c7559eac7f503eeaeb0900ab018b068238020c7d5int,
        -0x382b90d422cb2c051913b86fdb94abe5d0f8f216d1ed78428fef84e869bff603fe50b569bf61c7293798be0fc3fa348444c0979eeb95f9aba3ecd34a5b897f7eint,
        0x243ed8f35c218e79c41172c4213e6d59dbc37079797676a2a48c9449eec26bf7int,
        -0x2c2c1a8022b107e52254d1ed3d58dab13135f2418f8aa6861635737bf45152204bce185e419dea2b37481d3ee3a15111082211fc5bc6b302f39ef283abe9f4a7int,
        0x8750bad9293fe2b8a0889c0031f458d200dcca0de064166dae634414a226e9e6int,
        0x21cfc373394b2c5e6d3910bd37ef146484b8b9c75de614dade65a00f2ab6fe06bint,
        0x570c0db9324af96c8dc94554c6909996660c884a988e66ac9291a3c88a77e804int,
    );
    let e = lemma_reduces_next(
        r,
        e,
        p,
        b,
        0x243ed8f35c218e79c41172c4213e6d59dbc37079797676a2a48c9449eec26bf7int,
        0x8750bad9293fe2b8a0889c0031f458d200dcca0de064166dae634414a226e9e6int,
        0x570c0db9324af96c8dc94554c6909996660c884a988e66ac9291a3c88a77e804int,
        -0x1edda27502adbbf0b8cef11f84f024cf41036c6abfd997407939916925d13148int,
        0x452f82db8318754be92f9202ece0ada5ab26e6d7170fc3face73433c62c4558cint,
        0x1int,
        0x2963021ff3027abe6d6d42c274f03a1d0de909584321aaa85c417fa38e2a2404int,
    );
    let e = lemma_reduces_square(
        r,
        e,
        p,
        b,
        0x452f82db8318754be92f9202ece0ada5ab26e6d7170fc3face73433c62c4558cint,
        0x2963021ff3027abe6d6d42c274f03a1d0de909584321aaa85c417fa38e2a2404int,
        0x8750bad9293fe2b8a0889c0031f458d200dcca0de064166dae634414a226e9e6int,
        -0xf838f6834fc3a2dd23dc875261671efce663e18bedf70aa7a96830b54a06e5e87209fff36375ed5610b7b03a59c81151af62fb9f587453c818c2aa7d322a44cint,
        0xb88c428af6caefe36dd51f155563216251ca0d2220bbea5e1c3b9ee82199dd34int,
        -0x195c92db048c9c0bd2c9dbb164d11b4b1cef242ead734ed2fee4b3b41023e131b3622b5d9ddd9acae44c5ea0b729e7c2e0e48c0e6003127c737afdc035899c6bint,
        0x61f31bd6119f54bb1a2d700544ff771faf9e617780caf10e3d537be86c82ff79int,
        0x126675740cc3f3b5c94260b6621bc93ef06469afe09d0b6a0562e8319c9dcd021int,
        0x942b5b8415f1a4390d3e48b42106446f9a0d224cf23214eaf4356d739c45efadint,
    );
    let e = lemma_reduces_next(
        r,
        e,
        p,
        b,
        0xb88c428af6caefe36dd51f155563216251ca0d2220bbea5e1c3b9ee82199dd34int,
        0x61f31bd6119f54bb1a2d700544ff771faf9e617780caf10e3d537be86c82ff79int,
        0x942b5b8415f1a4390d3e48b42106446f9a0d224cf23214eaf4356d739c45efadint,
        -0x3489f6dfcd7825b1a9e75164fa3a2184badc200b2380f9bb9c0fe859092ce7b5int,
        0x171bd20812e711959136e604fd7e86f5844fb988f85498f870463b65fd8b009cint,
        0x2int,
        0x750e5519389fdc8c958ff931b875eeb11ff17406f752291ef8dbe742f66bac3dint,
    );
    let e = lemma_reduces_square(
        r,
        e,
        p,
        b,
        0x171bd20812e711959136e604fd7e86f5844fb988f85498f870463b65fd8b009cint,
        0x750e5519389fdc8c958ff931b875eeb11ff17406f752291ef8dbe742f66bac3dint,
        0x61f31bd6119f54bb1a2d700544ff771faf9e617780caf10e3d537be86c82ff79int,
        -0x1fc31941bfdc6ada724a3fc6c59d2cad9c032d5166cd9e44bb2cefa144bb6c3f384180824c294d9763fcba576d39c5136fcffc509b321a329d7dc3775cccc51fint,
        0x18422b7bdebbd08e112721bfdf6e549d8a99fad751bb04ba5f8c7889eb242b23int,
        -0xd49f448d5ec48c339979f39b17ae2504d20fc699d6ec2018bc8d07c9d2258619cc4009a93323331a2a9c2bf4a349868c51780fb4baf286bc779041e9204d041int,
        0x95733125fe4acf17653ab615d413fc18701f35c13f048f46e84dbb262262e5baint,
        0xb7a3797acc6d021d365c106b5b31fc55458b106848f58e649bcc208a39d02dcaint,
        0xc82ffff8f3383982851950165d025cf713ff6343ab11b47641c997f56540655eint,
    );
    let e = lemma_reduces_next(
        r,
        e,
        p,
        b,
        0x18422b7bdebbd08e112721bfdf6e549d8a99fad751bb04ba5f8c7889eb242b23int,
        0x95733125fe4acf17653ab615d413fc18701f35c13f048f46e84dbb262262e5baint,
        0xc82ffff8f3383982851950165d025cf713ff6343ab11b47641c997f56540655eint,
        -0x46fbdf3924a5f3d926a8be5e1fe8552bd682c537262d613e7cdced9ca8c807f4int,
        0x2739066070d725c970a08c3d49c452e516042fbeafa50f3fc15f147e0e3b0582int,
        0x2int,
        0x70d22b68b8647d13a0731202f6756b82c69824a052f0221d24e9406a1ae55b3fint,
    );
    let e = lemma_reduces_square(
        r,
        e,
        p,
        b,
        0x2739066070d725c970a08c3d49c452e516042fbeafa50f3fc15f147e0e3b0582int,
        0x70d22b68b8647d13a0731202f6756b82c69824a052f0221d24e9406a1ae55b3fint,
        0x95733125fe4acf17653ab615d413fc18701f35c13f048f46e84dbb262262e5baint,
        -0x2eb5721e14c2d2d9051861cd3adaf1051b7f6be1e24f5ce323c04d74dc8d6595e1e6de4623c5685b8f4de022bad548d6ca3b503c8d4120341afdba940068a6ccint,
        0xc3300258a94b0d48279dbc0f42632600bab5b9f5cc9c0eaae8f46059c47d7734int,
        -0x1eefcdb01f8c1ccbe146e5f4123d86749c50e2907565a210b6c86b7d875231c88fdec76ae544e5e8d6ce4fc5e10f610b945d777bfeb5d37a8ab3e21fc46cb94bint,
        0x6af8987b64c9a74278bf38932fe196b03cf572a083b2ca24a7334f68d002cdc9int,
        0x165422161ff5cefb1363bddb7142d4819b8c64179383d18c95e17ad1a234b7242int,
        0xa26bfa03d1a7dd8d542447eff5f791fd78593d4bbcf30bcde4809e829d58c217int,
    );
    let e = lemma_reduces_next(
        r,
        e,
        p,
        b,
        0xc3300258a94b0d48279dbc0f42632600bab5b9f5cc9c0eaae8f46059c47d7734int,
        0x6af8987b64c9a74278bf38932fe196b03cf572a083b2ca24a7334f68d002cdc9int,
        0xa26bfa03d1a7dd8d542447eff5f791fd78593d4bbcf30bcde4809e829d58c217int,
        -0x3997b792c21f7f406a29a3bee5fa3a6bb31f84eebb5ac374d6382f6f8c564dc4int,
        0xe4463157cfd07a623266354d0473c31d5b7ef391a74231cab0c67585a02357fint,
        0x2int,
        0xaa73f0661e42a5ee240a93df2449dbf923c171d70375321496763be19c87bd7bint,
    );
    let e = lemma_reduces_square(
        r,
        e,
        p,
        b,
        0xe4463157cfd07a623266354d0473c31d5b7ef391a74231cab0c67585a02357fint,
        0xaa73f0661e42a5ee240a93df2449dbf923c171d70375321496763be19c87bd7bint,
        0x6af8987b64c9a74278bf38932fe196b03cf572a083b2ca24a7334f68d002cdc9int,
        -0x3282be25067680f8ec3c0637bd1c067d39a4479ee4e801fc015a1f8c43f9893448743d0fe5869b37b3a1955c649b500ed41fd57f3da50211b10f2b3075d2b328int,
        0x4058fc346e3e4b3e8cd1a7855ad6da3dcd0f7dc525e9bb5cbb02167df826b3b7int,
        -0xfd978b6b3aa4347731b23a637ebb288f3f2e8ce9d440d0cca2eea5f00786cea286cb8ffc62f6b947e54af9161c8668f95fd553dc27a87686c170ab505c4e125int,
        0x2a5e041020ec4b48f211ddf363b8e07fe6a559309375fd65f5dc771d777c7e1cint,
        0x10382f6612909bc5456590a8556a47a8f46b39e0f42f1beca895436c95c54e489int,
        0xc44aa22d938e6babd541851456de6db9ca1f1f0145b58d488197c22e351dbc83int,
    );
    let e = lemma_reduces_next(
        r,
        e,
        p,
        b,
        0x4058fc346e3e4b3e8cd1a7855ad6da3dcd0f7dc525e9bb5cbb02167df826b3b7int,
        0x2a5e041020ec4b48f211ddf363b8e07fe6a559309375fd65f5dc771d777c7e1cint,
        0xc44aa22d938e6babd541851456de6db9ca1f1f0145b58d488197c22e351dbc83int,
        -0x459a38074fcd2a0d3d45cd534eec0e3a418fd221b4154a32335c73e72910a17dint,
        0x5f0448d59874c901f4281f8a144c643aa975fcbdff3009fee090decd88120422int,
        0x2int,
        0x8d38e2bf28e98e400c9636c25f72236b2b6cdac6f70a63363fc95d08977fe942int,
    );
    let e = lemma_reduces_square(
        r,
        e,
        p,
        b,
        0x5f0448d59874c901f4281f8a144c643aa975fcbdff3009fee090decd88120422int,
        0x8d38e2bf28e98e400c9636c25f72236b2b6cdac6f70a63363fc95d08977fe942int,
        0x2a5e041020ec4b48f211ddf363b8e07fe6a559309375fd65f5dc771d777c7e1cint,
        -0x1093207a3ef2c4e8402a107c44efcded05414291e682afb68f471c1e9ecfdba391f952ac961c70d7bf118c5dc83fd85c1be4575f31d0e44f70ada6b4a3671c65int,
        0x36bc29cd4f7539de66ae3320934103720a968259103d78b357547b32b7506d4fint,
        -0x27c7a53cd09ed85f942289a81b9f7a1441aaf7d0bb47a80eccdfc5bcf9bd0cc4d94ff8d7d572b24353d1165b348652a11182058cf40a2e77a28b68bedfc4625int,
        0x83ed9a7d0356ac36c452b43fa8b063522c7af479a61c693e157c1acd4941a503int,
        0x8263dc0f94324debd467c3ac18d1aa303decb8bf0346d165d6e07f7b7e6a30baint,
        0x8527554d56ceaba47f0f50e61e021373dadac011b96cce1ae4a814f90f207e5eint,
    );
    let e = lemma_reduces_next(
        r,
        e,
        p,
        b,
        0x36bc29cd4f7539de66ae3320934103720a968259103d78b357547b32b7506d4fint,
        0x83ed9a7d0356ac36c452b43fa8b063522c7af479a61c693e157c1acd4941a503int,
        0x8527554d56ceaba47f0f50e61e021373dadac011b96cce1ae4a814f90f207e5eint,
        -0x2f36ec6b2ff04b5267c250f511213c4aa24822131b026781906f3bb1c5f5ef6dint,
        0x409231ff081ef3d13b1191cde9cca17a2a17fd30ccd3c854a3b83afea105cb09int,
        0x1int,
        0xc63229b653e13ccae3dc25d2ed473dcd9b26c28d3c83e304054cba1de4b1e86aint,
    );
    let e = lemma_reduces_square(
        r,
        e,
        p,
        b,
        0x409231ff081ef3d13b1191cde9cca17a2a17fd30ccd3c854a3b83afea105cb09int,
        0xc63229b653e13ccae3dc25d2ed473dcd9b26c28d3c83e304054cba1de4b1e86aint,
        0x83ed9a7d0356ac36c452b43fa8b063522c7af479a61c693e157c1acd4941a503int,
        -0x486f3624b50189140cae3f7966bc9a623bd27040225717555fe3b1f00f37414f57bd438f748b0489bdb8ce9ec09883b955f573dd39204627388c3121abc4df2fint,
        0x1739533e22feb852c6a7df0e621bfcfbfff7d5fcb0b97f110e9a659d11e750ceint,
        -0x181b990b21a05f7401ae4498c31a65e9a3d885863dc610161bc8e8047f7e5907d7ce9066501996d01acd903a31ea3f2168e651b7c0707c433fad7c489c11281fint,
        0xa05ca01a07ac515e3176e6b9881dc531a77bf7f0809751043c9eef1fd8d92226int,
        0x1a7f638109b336c20d1aad4f170f8cb9013f36926611dccddb18490c09e8d3067int,
        0x112fbe7de6d72033fcdf9426a4d40e74e1d28f9de6dd8593f5187e50e238729cint,
    );
    let e = lemma_reduces_next(
        r,
        e,
        p,
        b,
        0x1739533e22feb852c6a7df0e621bfcfbfff7d5fcb0b97f110e9a659d11e750ceint,
        0xa05ca01a07ac515e3176e6b9881dc531a77bf7f0809751043c9eef1fd8d92226int,
        0x112fbe7de6d72033fcdf9426a4d40e74e1d28f9de6dd8593f5187e50e238729cint,
        -0x61817830cc6b17c415545378e740f217f503d73867c826a2cfbf5b9fe41ecf9int,
        0x8ce1fe8d32953797ff5a5a64db825f4ef1289a639a701ba3b2983632c841ff53int,
        0x0int,
        0x4ac88eb7d78418eebd469b825098285aa56f84d665520fccede3e08fb890a8a2int,
    );
    let e = lemma_reduces_square(
        r,
        e,
        p,
        b,
        0x8ce1fe8d32953797ff5a5a64db825f4ef1289a639a701ba3b2983632c841ff53int,
        0x4ac88eb7d78418eebd469b825098285aa56f84d665520fccede3e08fb890a8a2int,
        0xa05ca01a07ac515e3176e6b9881dc531a77bf7f0809751043c9eef1fd8d92226int,
        -0x2138b39dcebdd70ee4b1a2db98f1db1730ecf151a8528d5219cc2fd3edf751d10f4c3d99ca0d7c3d14e83c9ec1d9a57c3eef526746050049432762fa73dbad37int,
        0x8c365e9fbaf12c640f981a73a24fcb46155bea0f5806dd587233202933c5b8aaint,
        -0x239e86eb849562e8f789aa2ae32fc99febafd28c947b278cfae9a7262cdd238a21053f08539c2cb99c51f863c02ed971b271674a0c64f69ca0846849808734f5int,
        0x6a017fc5a07938cede1900553dbd006e3ad7d4083892ecdf7b3ba38ad5b3f953int,
        0x1f3b4bd6625a7cc884e02cf7ea0bc5beb62cb0bc294157ce1dd126a8a78f36fe6int,
        0x5c9734c9a334c688d33c8b3cdb14d941eaa04c291617414175c0e7c87f56a7faint,
    );
    let e = lemma_reduces_next(
        r,
        e,
        p,
        b,
        0x8c365e9fbaf12c640f981a73a24fcb46155bea0f5806dd587233202933c5b8aaint,
        0x6a017fc5a07938cede1900553dbd006e3ad7d4083892ecdf7b3ba38ad5b3f953int,
        0x5c9734c9a334c688d33c8b3cdb14d941eaa04c291617414175c0e7c87f56a7faint,
        -0x20d4d8fb833d8353290498f2e6f5b152176dd012de107b106badc270dcf9ce55int,
        0xe7cf4c93770c8943defe8a61e4391c3bdb2efec85d7a03f7207d36d874913b6dint,
        0x1int,
        0xa1fbfcfda48f7ffd894dbc2a338e570bd53cce899a4ca11cd375d782b1c9b099int,
    );
}

/// A power of a root, step by step.
proof fn power_26(r: int)
    requires
        root(r),
    ensures
        reduces(
            r,
            0x1fffffffe00000002000000000000000000000001ffffffffffffffnat,
            0xcf8b1547a7e917d9b2dcceae0e3cb19a60f73020f8e59e5864edafdfc959725dint,
            0x60e1c5fe30c1edfbddedb8ae0cb812a0d6c540bbbe94a3c041c3fc0bbad380eeint,
            0xf378f3f1e3cff48b705fcb697bcb8945bd036181b108f03a95ae6c9adff85fabint,
        ),
{
    let (p, b) = (
        0xffffffff00000001000000000000000000000000ffffffffffffffffffffffffint,
        0x5ac635d8aa3a93e7b3ebbd55769886bc651d06b0cc53b0f63bce3c3e27d2604bint,
    );
    power_25(r);
    let e = 0x1fffffffe00000002000000000000000000000001ffffffffffffnat;
    let e = lemma_reduces_square(
        r,
        e,
        p,
        b,
        0xe7cf4c93770c8943defe8a61e4391c3bdb2efec85d7a03f7207d36d874913b6dint,
        0xa1fbfcfda48f7ffd894dbc2a338e570bd53cce899a4ca11cd375d782b1c9b099int,
        0x6a017fc5a07938cede1900553dbd006e3ad7d4083892ecdf7b3ba38ad5b3f953int,
        -0x2f916dcb0ea60ca15ee5af2fc44d2e8c5bfad239516a02de7a07536e1121844c8f1c72cbc629aeba7b5c33ee07b0299f32a2c6370c44e4309aa6b92f9d4b9d7cint,
        0xe6c61cf696a6366a7e7be15b11a9ad984ad5152cfe7257912461fb50096a81bint,
        -0xf90944547f5d0caf1f600305f60e04c538d633ace95299da0ea38ba0a805ac356f92fefdede1ee7aff6305ad08b0534f7b14a5f89a22baa71dbee159594ffa9int,
        0xd3167d0e0f91e65ba30c015c06c636a280f504d328d3b815c7159a9a3e4c8400int,
        0x1aa290826cc8ca88c69197b4d854184a61211dcd220592d0a05031bcb736ade37int,
        0x6a68b8c02750871013da8ab4f65df69cbb72497abaa4829ea76a9d9c9861df11int,
    );
    let e = lemma_reduces_next(
        r,
        e,
        p,
        b,
        0xe6c61cf696a6366a7e7be15b11a9ad984ad5152cfe7257912461fb50096a81bint,
        0xd3167d0e0f91e65ba30c015c06c636a280f504d328d3b815c7159a9a3e4c8400int,
        0x6a68b8c02750871013da8ab4f65df69cbb72497abaa4829ea76a9d9c9861df11int,
        -0x25bb345455897a410c23634d64adfe2ca2656cda36f7562d5124a3bac92a275dint,
        0x99e4c8506c022ca1e21557c1db5755ebe076a2850e653bf33f2e8add4b911ea8int,
        0x1int,
        0x4da68c10df5bf895e3775e3494347eafb7042dc1ffd4ad550885f88ac9bc454fint,
    );
    let e = lemma_reduces_square(
        r,
        e,
        p,
        b,
        0x99e4c8506c022ca1e21557c1db5755ebe076a2850e653bf33f2e8add4b911ea8int,
        0x4da68c10df5bf895e3775e3494347eafb7042dc1ffd4ad550885f88ac9bc454fint,
        0xd3167d0e0f91e65ba30c015c06c636a280f504d328d3b815c7159a9a3e4c8400int,
        -0x2d68229042de65e4f9eebd95954687c9da262c7a7085311954f03f13074fc7ce34fa0ae933242349890c61bed8b3a663960bec7a729113a0834bb63ead7c85c9int,
        0xdedfb2b1cffc40f2cdc8504714c0254654b14b6dde45d7940cc24a4a0f12077int,
        -0x3db7b692e5620c8c6376a08dd9e7d3fa2567233691620be3573dfc25f41b6ff5ea4b1bb48f403f4ddf40ad8929a28c5d1f16b1d778e7aabea0588fca630ba4baint,
        0xe4c5f1a0784bf368bda06f79f82afd4e3f903344e30e107a1df3a413f8403ef6int,
        0x31f8204dd47220b4090fc468ceca28744b3e331ab7d48b82f1dc733f771d9b8d3int,
        0x1634a0793b0dfd38b89819af12e4f00c7e7ec675a8f72dee827071ec8632a734int,
    );
    let e = lemma_reduces_next(
        r,
        e,
        p,
        b,
        0xdedfb2b1cffc40f2cdc8504714c0254654b14b6dde45d7940cc24a4a0f12077int,
        0xe4c5f1a0784bf368bda06f79f82afd4e3f903344e30e107a1df3a413f8403ef6int,
        0x1634a0793b0dfd38b89819af12e4f00c7e7ec675a8f72dee827071ec8632a734int,
        -0x7dfb1ca74cad0771ed617fc050572f55fbdc225b139c56bb083f426a1d25db4int,
        0xb2e3029b8a173ca43ebdfd39335cc5862e020ced8aef17318a0d7d9cf9fb2610int,
        0x0int,
        0x508bdc96ce29bbb956a4d211a9fad279e0c76817d8c9e744c81d7a6a33891613int,
    );
    let e = lemma_reduces_square(
        r,
        e,
        p,
        b,
        0xb2e3029b8a173ca43ebdfd39335cc5862e020ced8aef17318a0d7d9cf9fb2610int,
        0x508bdc96ce29bbb956a4d211a9fad279e0c76817d8c9e744c81d7a6a33891613int,
        0xe4c5f1a0784bf368bda06f79f82afd4e3f903344e30e107a1df3a413f8403ef6int,
        -0x330bd642bfd6f64f0d6de552bf5599d23af1c307dc78010ba86b2db8cb425f1b21b85d61f00a40be467f20e8b1a07ec9ddc1c360b0a95f0a723b665645a61993int,
        0x4771b418413425bdd497ff50f449e1ed5760b1f7e0d469afa67bfe44b4cd20c1int,
        -0x487e153a16c73b5d5e70daa8ab7feea85824f0f25a88cafb0ad08abec1398db9980d19b8f8353b34849efea135491fb43f400926026168f95618e89d4c0fc3caint,
        0xc3ae37d3fb0aaba13340cc4aacaadd426d37aae2dfd3081898db908309d20ad6int,
        0x3be64445cdb2ca6aa14c3e770eee43b8b4b78e9aefe00d34e795d002b8494d571int,
        0x5214427efab72b7f133d4161cff93ee426017aae7a11f591387fb47455633ec6int,
    );
    let e = lemma_reduces_next(
        r,
        e,
        p,
        b,
        0x4771b418413425bdd497ff50f449e1ed5760b1f7e0d469afa67bfe44b4cd20c1int,
        0xc3ae37d3fb0aaba13340cc4aacaadd426d37aae2dfd3081898db908309d20ad6int,
        0x5214427efab72b7f133d4161cff93ee426017aae7a11f591387fb47455633ec6int,
        -0x1d1aac4fd8e59c7cd2ce7777af6f4c285ef37b8eeb95ca5df8e151fbb133a633int,
        0xc4953036fee9a33c60c3a8efb3dd69ed02a29105f71901debf8569fc6ac2b5cbint,
        0x1int,
        0x3dae7b963159a83a0e4fc37664359e99c96522024f0a4a634ffb1ba1b4f6dd14int,
    );
    let e = lemma_reduces_square(
        r,
        e,
        p,
        b,
        0xc4953036fee9a33c60c3a8efb3dd69ed02a29105f71901debf8569fc6ac2b5cbint,
        0x3dae7b963159a83a0e4fc37664359e99c96522024f0a4a634ffb1ba1b4f6dd14int,
        0xc3ae37d3fb0aaba13340cc4aacaadd426d37aae2dfd3081898db908309d20ad6int,
        -0x216fa578866a35c110bdb511dc0b221463af0b83f8122ec64bfd035cbe4a225734cd45db42cc6940ac886d02f2f31c7eb96c817bc146c59515076380e8ee4390int,
        0xa8912d2607a40b03df5989d20cdb0ec74070cf010148cb4373fd3f16123a1b99int,
        -0x350971ac4f139f77053a34c943f6d3fb5c11172fa6986a0b8e5549c9785f07bf03736ff2fd37bc31cbce9c72c5d54bd260b34bf991e3312012a0067b1d99062bint,
        0xf47707da7fea51de49992efa95c1c2014020bb366a0e9586b76100bd03b99711int,
        0x2fc1c14aa6b1aec9e8eddf76062d6e88985600eb723d5a18738277be6bcedcbccint,
        0xd1548fd98864245dfb2ccbf9f868d37772622652747e1284fb86e4ad33b9616cint,
    );
    let e = lemma_reduces_next(
        r,
        e,
        p,
        b,
        0xa8912d2607a40b03df5989d20cdb0ec74070cf010148cb4373fd3f16123a1b99int,
        0xf47707da7fea51de49992efa95c1c2014020bb366a0e9586b76100bd03b99711int,
        0xd1548fd98864245dfb2ccbf9f868d37772622652747e1284fb86e4ad33b9616cint,
        -0x4a39ce01b2bff6a6746c52c54b02eb7b92a84e7eaebff7a56a4c99bbf9526eeaint,
        0x90910b36e7889451f6b162da431a234f9f1f3ef23245ab1a13d4e00efc3d8672int,
        0x3int,
        0x1c8edcb5a0d0781ad0dfedbff615892d979741f55ec302d26691ed1dad663fe0int,
    );
    let e = lemma_reduces_square(
        r,
        e,
        p,
        b,
        0x90910b36e7889451f6b162da431a234f9f1f3ef23245ab1a13d4e00efc3d8672int,
        0x1c8edcb5a0d0781ad0dfedbff615892d979741f55ec302d26691ed1dad663fe0int,
        0xf47707da7fea51de49992efa95c1c2014020bb366a0e9586b76100bd03b99711int,
        -0x13570ecd80fa7760a96a6cdb958762bb8eb55df18b39be2982b9c749a5958056df4b00169cf5c394d9c7ba76d65187e79de4514484a5acd58b178d8255f82983int,
        0xb10f0f0f28af24ca9edde0097925c8e53511729217021bf0f60e47200dde6001int,
        -0x52c738cc987aa489454b2d73a39e6cc72a1c844b89652f1950a2fbb8129b5dc7e7af3749f0da81271e4cd940f3c794bceaeb364acba533705a8c9f1f74f985ffint,
        0xe41901ed2a5d02e12861b543a55d7eb63f909f9a91cb8a0e84afd6b5ad624216int,
        0x3d3a3d80f66c29ba9d720f789a9b2fa281dd96a3a60d8f3d98060fd76e4c81191int,
        0x72308381ed0f0d8ee7f277d25cda7b37903ac53670e794978b5454e7ede79a18int,
    );
    let e = lemma_reduces_next(
        r,
        e,
        p,
        b,
        0xb10f0f0f28af24ca9edde0097925c8e53511729217021bf0f60e47200dde6001int,
        0xe41901ed2a5d02e12861b543a55d7eb63f909f9a91cb8a0e84afd6b5ad624216int,
        0x72308381ed0f0d8ee7f277d25cda7b37903ac53670e794978b5454e7ede79a18int,
        -0x287d77c63c69502e38e78f608c1f80d4b2047d8bba9f4be4fe14ed971f57d6eaint,
        0xdbdea2a2522d0496a65954c6cbf644ccd294f7e02a35e379275ad6f94455040eint,
        0x2int,
        0x7a09996efdc4d7556b547808fb53a8be5c1c23369b8d9b7980b45d7d7952e4bint,
    );
    let e = lemma_reduces_square(
        r,
        e,
        p,
        b,
        0xdbdea2a2522d0496a65954c6cbf644ccd294f7e02a35e379275ad6f94455040eint,
        0x7a09996efdc4d7556b547808fb53a8be5c1c23369b8d9b7980b45d7d7952e4bint,
        0xe41901ed2a5d02e12861b543a55d7eb63f909f9a91cb8a0e84afd6b5ad624216int,
        -0x4d1ce6042a5f14011e0e2471e9398438d75af557a5e80213303083946f81446dc96e8592d23741fb76f6dd70af5704e74d7ff743795394ad0d1b856a9a8a3aaint,
        0xd35d1ec024cc51e6371944313e258560c0527287f936e1dae9c98a31666d2a4eint,
        -0x4810a5763f3fd1922dd637e851f5c5f95c3cc442bb3eeee8fcf3e73cdfb2b1c41668b75a9a34f4fb99580c1b4fe2a9123555c9aee40bfdfd0761505ec63c7b48int,
        0x21d87549fd7cc5b9c5e3ed2288ef5bc9818090f86b826ea8e1013640529bf9ccint,
        0x3e9bf5d46056970d381511791fcfe371935f3a93e39ea836b985854fddca88f49int,
        0x6051c15db48e761b9ef88c82882486127583bd725f1021a08e7ad0878f779156int,
    );
    let e = lemma_reduces_next(
        r,
        e,
        p,
        b,
        0xd35d1ec024cc51e6371944313e258560c0527287f936e1dae9c98a31666d2a4eint,
        0x21d87549fd7cc5b9c5e3ed2288ef5bc9818090f86b826ea8e1013640529bf9ccint,
        0x6051c15db48e761b9ef88c82882486127583bd725f1021a08e7ad0878f779156int,
        -0x22275179142aef34008cfc0371fe157b48b7847f30daa356f0e40362022362bfint,
        0xf1e205b9c01963a0f7e99a94e02fe2f462a5fef7cfeea6df02a5cd0cccc8c90fint,
        0x1int,
        0xf45262da4277b4381402e9b8d693179820ddaade166746bc9539fbc814d3de51int,
    );
    let e = lemma_reduces_square(
        r,
        e,
        p,
        b,
        0xf1e205b9c01963a0f7e99a94e02fe2f462a5fef7cfeea6df02a5cd0cccc8c90fint,
        0xf45262da4277b4381402e9b8d693179820ddaade166746bc9539fbc814d3de51int,
        0x21d87549fd7cc5b9c5e3ed2288ef5bc9818090f86b826ea8e1013640529bf9ccint,
        -0x16e84db67e94a5ae640536b6e8a45e81c0901e911c878d2202aad000938d0869690bdd35b51e945f34f585a95506ec69d381c09fcade29f86efa7ad19a630a4eint,
        0xe1f1e447f4167797f876ef363b87c75b72022704f615cdf7800f6f04f526fc8bint,
        -0x1962fc7a6a24acff967c3638251cdc612f8faeca01d5396cd565625682c6389aa1484c9a7883883c7bb5109167df3838351e49773fc4a00a10addabbbbc6fa9int,
        0xa499bbe5388e096111636a6f8b56901d4096de0be0366353c2b9a5fbb33490edint,
        0x1368f0746593bda4cde3df4b30426847c94e5c22282474ad11ceda8cd578a80beint,
        0x31a1fa16f4bf7298cd5911a6217ab8d32b4bf962804bff8df9b494d5a7be23f7int,
    );
    let e = lemma_reduces_next(
        r,
        e,
        p,
        b,
        0xe1f1e447f4167797f876ef363b87c75b72022704f615cdf7800f6f04f526fc8bint,
        0xa499bbe5388e096111636a6f8b56901d4096de0be0366353c2b9a5fbb33490edint,
        0x31a1fa16f4bf7298cd5911a6217ab8d32b4bf962804bff8df9b494d5a7be23f7int,
        -0x11995fa41bd8a97d5f42256003a261564609e96ceec26afdb81a351a8d85872bint,
        0x4df049b4caef2cc43e04ab0ead4122e5cecbf3982e9d443b61fe61fdeab4f78int,
        0x1int,
        0x76d7d28dd254cf61608224289ff7f1d4f3e6132b76f9cca16d2d2d85ec616871int,
    );
    let e = lemma_reduces_square(
        r,
        e,
        p,
        b,
        0x4df049b4caef2cc43e04ab0ead4122e5cecbf3982e9d443b61fe61fdeab4f78int,
        0x76d7d28dd254cf61608224289ff7f1d4f3e6132b76f9cca16d2d2d85ec616871int,
        0xa499bbe5388e096111636a6f8b56901d4096de0be0366353c2b9a5fbb33490edint,
        -0x363098d09abfc60c066906ce04c86055f06d72187d44d3134a705c6d2a0a91cb58cbedc9c5276f0d74dbab84171f94f682c6e2471f03f3635f02c75b6d60b7aaint,
        0x8364c2067db693c4e18d888cb348105516fb4d90b3987d77c0b1839aed94f498int,
        -0x2586f12a3cb4022d9b5437a000dbf488125f1613234e8f26543d1e17bf83e1751544528a6e50cdb9b626d9399c329c735609c2d75da29fc92713b58cfc2e4430int,
        0xf378f3f1e3cff48b705fcb697bcb8945bd036181b108f03a95ae6c9adff85fabint,
        0x17aef42e00d106cfc45a10672253d83c7b85f6372c259c12b80b042454a844125int,
        0xf47f01519103c8bdfecabab5c87aab6e9543510f58feb76d805b7d7aef14d971int,
    );
    let e = lemma_reduces_next(
        r,
        e,
        p,
        b,
        0x8364c2067db693c4e18d888cb348105516fb4d90b3987d77c0b1839aed94f498int,
        0xf378f3f1e3cff48b705fcb697bcb8945bd036181b108f03a95ae6c9adff85fabint,
        0xf47f01519103c8bdfecabab5c87aab6e9543510f58feb76d805b7d7aef14d971int,
        -0x56b1f41f41c6ba5fcc552b1e1df4051e87e82646d48f51fd3a0101dbc44e7988int,
        0xcf8b1547a7e917d9b2dcceae0e3cb19a60f73020f8e59e5864edafdfc959725dint,
        0x3int,
        0x60e1c5fe30c1edfbddedb8ae0cb812a0d6c540bbbe94a3c041c3fc0bbad380eeint,
    );
}

/// A power of a root, step by step.
proof fn power_27(r: int)
    requires
        root(r),
    ensures
        reduces(
            r,
            0x1fffffffe00000002000000000000000000000001ffffffffffffffffnat,
            0x23567f2d80e1d1c439175e3fd3c3a308dc79b7a38695e38014dcfc3ad895edf4int,
            0xadd0b94c26cb9e6256b9b64624cabad6f1d67c02a486bd116debd9dd9dead8abint,
            0xb5213ff901c14ea108de16cd31023a00f8ebb7cde26b940c61493549240abdf0int,
        ),
{
    let (p, b) = (
        0xffffffff00000001000000000000000000000000ffffffffffffffffffffffffint,
        0x5ac635d8aa3a93e7b3ebbd55769886bc651d06b0cc53b0f63bce3c3e27d2604bint,
    );
    power_26(r);
    let e = 0x1fffffffe00000002000000000000000000000001ffffffffffffffnat;
    let e = lemma_reduces_square(
        r,
        e,
        p,
        b,
        0xcf8b1547a7e917d9b2dcceae0e3cb19a60f73020f8e59e5864edafdfc959725dint,
        0x60e1c5fe30c1edfbddedb8ae0cb812a0d6c540bbbe94a3c041c3fc0bbad380eeint,
        0xf378f3f1e3cff48b705fcb697bcb8945bd036181b108f03a95ae6c9adff85fabint,
        -0x41580d67ea89ca110f1a38ddec50f03a39b2c9c8082cc683c3f6d920f27bfa1846a6d7f1b4123aadc58a19ab7f9c572e06da9bd4ab1385b99d2fffacdc456b0eint,
        0x77e605b85d04727053881c687e2d80558c4ebf1719cbaa02b007f02b63cbd83fint,
        -0x521b8137a0ca5af33f0d84e740f387f599cf7ddff6f118b9f731e13e108194de8dbe963f303ca442fe1ee641b507110efd1926b47c7e5b0cdd0c9b1c50a11763int,
        0x3f07b7b89910a27bf92c7f57331e8aeacf364e873b9dc4190da3c8fff154ceb2int,
        0x4661cccbd5d5f6ef6edd75f1ee97441fbd1f312c914ad0bf16f60b531757d56e1int,
        0xfb9af8a4c1f9c4c115e1f9cb7d11551c9df72cf51319aa58b51d8ab84c81170eint,
    );
    let e = lemma_reduces_next(
        r,
        e,
        p,
        b,
        0x77e605b85d04727053881c687e2d80558c4ebf1719cbaa02b007f02b63cbd83fint,
        0x3f07b7b89910a27bf92c7f57331e8aeacf364e873b9dc4190da3c8fff154ceb2int,
        0xfb9af8a4c1f9c4c115e1f9cb7d11551c9df72cf51319aa58b51d8ab84c81170eint,
        -0x59374a329c618350274268a7a3b549f1002b911bc17d7ec1fa28094cebaa16fcint,
        0x4a80d030d65c29f308d100deb93cbf01a0a86aaffcb660c27365ec383662e7eaint,
        0x3int,
        0x6ab6efa9a2f1c0b0952e09caf5617fab663445f35318a90ccf609054494f1d6cint,
    );
    let e = lemma_reduces_square(
        r,
        e,
        p,
        b,
        0x4a80d030d65c29f308d100deb93cbf01a0a86aaffcb660c27365ec383662e7eaint,
        0x6ab6efa9a2f1c0b0952e09caf5617fab663445f35318a90ccf609054494f1d6cint,
        0x3f07b7b89910a27bf92c7f57331e8aeacf364e873b9dc4190da3c8fff154ceb2int,
        -0x12a2124949450170935bd1bfca580284ee9ef8e659aab57975f7c14a063966802394621b3812929e5980e4bfec82f25f7ceeef1245ff2004939cafcf86edb78aint,
        0x48865e4e679bfd7c01af820acd1a15c5ec00c6d13673c6a45f9597cbcabfde4aint,
        -0x580b3ed26384678b6a2bd137d3f71b65467517e248681027a51916bb51c9f77fb54ba29aff470bd36ef6d733a712c341b6ac7529281d5dca89274fbaac22375int,
        0x3de98a14025b98ef5b4f1c1bb19ba0776f0253093cba7dd08ced30e154c5d21fint,
        0x7fba4b9eea2a2ff633ef3b787d76b4f5f721198870bcf2ac58fc2d3f48f7ff8aint,
        0x7f43f5fab471abbcd771e392e020dc8de89118c93841f40b04d7c665f07199ceint,
    );
    let e = lemma_reduces_next(
        r,
        e,
        p,
        b,
        0x48865e4e679bfd7c01af820acd1a15c5ec00c6d13673c6a45f9597cbcabfde4aint,
        0x3de98a14025b98ef5b4f1c1bb19ba0776f0253093cba7dd08ced30e154c5d21fint,
        0x7f43f5fab471abbcd771e392e020dc8de89118c93841f40b04d7c665f07199ceint,
        -0x2d206dcf585ca7439823e49f6cda72487aa9b155e15dc53c9388aeb61b987ff8int,
        0xef578bde3f9080bb2ea6ffdf456eaa14dfe6cbdcf91fbaa2b645e3bf4c7630aeint,
        0x1int,
        0xc652403f84f100b188052cc36d7cab6fa5b4112bdf39a2c56e1ceafd9c14abb5int,
    );
    let e = lemma_reduces_square(
        r,
        e,
        p,
        b,
        0xef578bde3f9080bb2ea6ffdf456eaa14dfe6cbdcf91fbaa2b645e3bf4c7630aeint,
        0xc652403f84f100b188052cc36d7cab6fa5b4112bdf39a2c56e1ceafd9c14abb5int,
        0x3de98a14025b98ef5b4f1c1bb19ba0776f0253093cba7dd08ced30e154c5d21fint,
        -0x22039b2044e47d3218687316dec66e7edfca53bd5d8a44d4a39007027a7ed91485640376e8cec53b1f68d6e1e1c686bf8b8804270573b7985c1c6a1f7ac47cf7int,
        0x1a1f87fbd067741a04993c8522afb71c37e95ec54c44bafc9a191611a968979bint,
        -0x54f2d62617ceac63f1783ed8dafb063e2698f89997abe7d8c86b3d576412c9d945e77eaa0853e90e97d3cb1ed0eb5ed406cba1e5f9707f10a2484e24f019f05int,
        0xf59fd8023c20ea6053209f09504eba7a5dc5c181643b9d6f23d2aba95dd15afeint,
        0x13a5320938a96297b035418601a43e82c26693c3d76e2854c0544e794642986bcint,
        0x9ec330fd995559faa149117042b8c99b2916f368274bd790a021a380046cb61cint,
    );
    let e = lemma_reduces_next(
        r,
        e,
        p,
        b,
        0x1a1f87fbd067741a04993c8522afb71c37e95ec54c44bafc9a191611a968979bint,
        0xf59fd8023c20ea6053209f09504eba7a5dc5c181643b9d6f23d2aba95dd15afeint,
        0x9ec330fd995559faa149117042b8c99b2916f368274bd790a021a380046cb61cint,
        -0x384b8b960bbfee6edbc48d2c91abceae7d418768136baf3fd379ed8b0f51f79fint,
        0x201cf176c9b2eda77b4edc030f7cb7d7028585ee063efb6e7a204e9739922e2dint,
        0x1int,
        0xf6691af59c678208e87470d5eada13edb32e38fcc22841ae7a7e0091b6aeb9f0int,
    );
    let e = lemma_reduces_square(
        r,
        e,
        p,
        b,
        0x201cf176c9b2eda77b4edc030f7cb7d7028585ee063efb6e7a204e9739922e2dint,
        0xf6691af59c678208e87470d5eada13edb32e38fcc22841ae7a7e0091b6aeb9f0int,
        0xf59fd8023c20ea6053209f09504eba7a5dc5c181643b9d6f23d2aba95dd15afeint,
        -0xa7aa5b5dd61c0ed5e8debf9433e1f71acf090d36f7ee3764ddb3f06d91fc2f911df15259918f175824d19c7a90715fa4cc78153fed16128dc2851a591f853e69int,
        0xfbebb2ac01135221b6e9d85695236c6284bb1fbce078099b279e5249fe6dfac0int,
        -0x5390b4c50f5e81f267bd6af7d04691ef75bed2c9ce5f976b6f9670fd192a0dccdd55e7d90ac97e7ea18c865aa4daa216cf7eea61a3d629f1fb494ef808a0a097int,
        0x60ed0ecf4f443fcd0aecc526bcc9d9290b71f920296982462a8a4721dda495dint,
        0x3edcfb114bdbd34d884f10697de9f7f904c0ad5811d5d0801bdaba877a6717895int,
        0x73ae39013df8fad6dbd0d1084797c154dd4c2d0712fb436ee014823c0afe3aedint,
    );
    let e = lemma_reduces_next(
        r,
        e,
        p,
        b,
        0xfbebb2ac01135221b6e9d85695236c6284bb1fbce078099b279e5249fe6dfac0int,
        0x60ed0ecf4f443fcd0aecc526bcc9d9290b71f920296982462a8a4721dda495dint,
        0x73ae39013df8fad6dbd0d1084797c154dd4c2d0712fb436ee014823c0afe3aedint,
        -0x2904d11fa97dcceb5d9e699ed483a9c966d7e234ab92b1ac868308d42d9b7bc7int,
        0x4a661cd07878108cd0b7add6cc42f4adddce68750726b21de9eba88d26660caint,
        0x2int,
        0x56f65db1bafe42a44a5c4b6f6beab0611c9fa6d01969d3e7c7dbd8fe1f68ab89int,
    );
    let e = lemma_reduces_square(
        r,
        e,
        p,
        b,
        0x4a661cd07878108cd0b7add6cc42f4adddce68750726b21de9eba88d26660caint,
        0x56f65db1bafe42a44a5c4b6f6beab0611c9fa6d01969d3e7c7dbd8fe1f68ab89int,
        0x60ed0ecf4f443fcd0aecc526bcc9d9290b71f920296982462a8a4721dda495dint,
        -0x17599108c517a17e6e7bf9d6cd08f819b31f8ad5b160d4658b3959e8e9e85cc2b185fd03e51c84bda8bb31c1895ac38f4d6f95c3f279eb5088c22e63722efa4int,
        0x60f8720736d98ea1b532ca54c0440f97004b4c26b06b1a27535872b4bf702652int,
        -0xd0338792ff150c04efd5d0c9c038399ead2ba7321cfd86b03dac8791284b39a544b29dd5b0734303e096d30a59196e69e90d0d5fd9496329f76b744d7004bint,
        0x662764457bccd196ab90216d75f563ab6dc4eef429feb56c5bc8d4fe8f608aa4int,
        0x1e30e25ee4c8e01a8882850592200e4da1cb84ed04331212993bc6beebcd6590int,
        0xd42b5dac8f8ee82a18da2759a78a31219b3b12b820eb7510953b034815e9bf00int,
    );
    let e = lemma_reduces_next(
        r,
        e,
        p,
        b,
        0x60f8720736d98ea1b532ca54c0440f97004b4c26b06b1a27535872b4bf702652int,
        0x662764457bccd196ab90216d75f563ab6dc4eef429feb56c5bc8d4fe8f608aa4int,
        0xd42b5dac8f8ee82a18da2759a78a31219b3b12b820eb7510953b034815e9bf00int,
        -0x4b3b8519f53be72e7d67a43944906fbc6eb1a88f1a9969da388d114612273398int,
        0xfcbd1ccc9a8f207bfa2295035d48a339c2e6d1347d22eeb67815188c2cbdd768int,
        0x2int,
        0xdd7a8b0ee586471dffc14061b6e2a2fbd1fc844d132d795913097c8d012d6354int,
    );
    let e = lemma_reduces_square(
        r,
        e,
        p,
        b,
        0xfcbd1ccc9a8f207bfa2295035d48a339c2e6d1347d22eeb67815188c2cbdd768int,
        0xdd7a8b0ee586471dffc14061b6e2a2fbd1fc844d132d795913097c8d012d6354int,
        0x662764457bccd196ab90216d75f563ab6dc4eef429feb56c5bc8d4fe8f608aa4int,
        -0x3eacfe1500aec680bce41c670bd8a672a793378c1281aa0d486627b6b0ce51055a1dafe9cf7e542e4e29aadbc9e0795ceed83db983e4408e7d64f624a797cc11int,
        0xf27a21c96945970ee8777b363b5c4a1d3742782e160e2b14b968b0880a7f0e4fint,
        -0xe7442f7d530948349cf0ec05b6bcb9467eb4b33804f9a4fd78b3051c72a0e4502770562a4ff5c79401d89e367b77f40c0897e83cb9194bb76ab333a3cd1a987int,
        0xca0509ba1fa18958f51b80e031caed408a4e6b19b1add62be78e000cb2e9e5e9int,
        0x2039b87368d51da8a312582cffce7e452cdd466f7d37b741988fce0901dd69d30int,
        0xd5aad9156ec808c12109e1070ef48e34dd8c604bc44adcac6af62f5b0fa07930int,
    );
    let e = lemma_reduces_next(
        r,
        e,
        p,
        b,
        0xf27a21c96945970ee8777b363b5c4a1d3742782e160e2b14b968b0880a7f0e4fint,
        0xca0509ba1fa18958f51b80e031caed408a4e6b19b1add62be78e000cb2e9e5e9int,
        0xd5aad9156ec808c12109e1070ef48e34dd8c604bc44adcac6af62f5b0fa07930int,
        -0x4bc37f66f07673861aafb16666337997414849ee93b009353d30b9ebdde33c82int,
        0x27474b931f34c7722960805959b60280025cbd0cf936961a68f462d0a747426eint,
        0x3int,
        0x737aad0cb59db14f4b951e4b6839f4bbcfe7990e62eec119fa4b3e99396079e2int,
    );
    let e = lemma_reduces_square(
        r,
        e,
        p,
        b,
        0x27474b931f34c7722960805959b60280025cbd0cf936961a68f462d0a747426eint,
        0x737aad0cb59db14f4b951e4b6839f4bbcfe7990e62eec119fa4b3e99396079e2int,
        0xca0509ba1fa18958f51b80e031caed408a4e6b19b1add62be78e000cb2e9e5e9int,
        -0x40a05e6218942739962288501e018a201fefda2632cd6bb15272364304176c1ad362b84fa5c38022e1438ec07480c4342458532f20daae2f2a47c9e92a25a515int,
        0xf64858a3c76582f3a92c217189cc9a1e2fab4af30be0a7e32fc6341e11cf49e3int,
        -0x3887629d41bd4cebda4fadc777dd15d7db59c89330062a8bf2e2dca149249d94a41e79a15e2000cc8dbfa81ef9e372afc122e6f9ee9018be54cd43c28b31bf6dint,
        0x4cad4de94ef70c93638fae86c401ecd2473bd0b82522d15e6b359af7a0fcbbfcint,
        0x250595ba7b4e62814dd43194621bdc75b92d194834bf46a44f6850689fc973308int,
        0x69329588fcd988c4bc1f81a25a987bbd0a11fe0a5058cbf6c74e3c9b22c060fbint,
    );
    let e = lemma_reduces_next(
        r,
        e,
        p,
        b,
        0xf64858a3c76582f3a92c217189cc9a1e2fab4af30be0a7e32fc6341e11cf49e3int,
        0x4cad4de94ef70c93638fae86c401ecd2473bd0b82522d15e6b359af7a0fcbbfcint,
        0x69329588fcd988c4bc1f81a25a987bbd0a11fe0a5058cbf6c74e3c9b22c060fbint,
        -0x254d3bd277bc779fc0fb846418e3a28607eff09680d7dbc809ec55bbe0f0b1f9int,
        0x8791431a3f7f24079abe68c8ffb0221feb235bbb81f156b37d939a69016ec47eint,
        0x2int,
        0x31e01940bdf21d3fdd8aa65899960d554de1450ffceb0bc785b0e9ef7a106cd6int,
    );
    let e = lemma_reduces_square(
        r,
        e,
        p,
        b,
        0x8791431a3f7f24079abe68c8ffb0221feb235bbb81f156b37d939a69016ec47eint,
        0x31e01940bdf21d3fdd8aa65899960d554de1450ffceb0bc785b0e9ef7a106cd6int,
        0x4cad4de94ef70c93638fae86c401ecd2473bd0b82522d15e6b359af7a0fcbbfcint,
        -0xa9816ce37c438a1c4f12445d3df56d0b868c0d75a741de99cb49cb6c5fdcd3530a87dbb33ee45e5970d1cc8f37fe1c00fa8a1cace1f56ee0d6a7c4810c66fd2int,
        0xbe76482ffc42036174dfb41bd2da584ba273a892c6a49f18e1615bf9264e63c2int,
        -0x824be57de355dfdb7ad0d5f84d227ffd6b9a38c7fb886296fb5cf32fdf2388c9e4e1912aed27346264334bdcfcc3731272f9e4122dca744ed40673e91276bf8int,
        0xb5213ff901c14ea108de16cd31023a00f8ebb7cde26b940c61493549240abdf0int,
        0x9fd36d4723b66bdf532f6572496af1203a50aac7c15bf7131ce922f68328427eint,
        0xfa737b08638333abf5f3560e1b5020d91a76467b9f4b5f52d9837f4c27ded1a2int,
    );
    let e = lemma_reduces_next(
        r,
        e,
        p,
        b,
        0xbe76482ffc42036174dfb41bd2da584ba273a892c6a49f18e1615bf9264e63c2int,
        0xb5213ff901c14ea108de16cd31023a00f8ebb7cde26b940c61493549240abdf0int,
        0xfa737b08638333abf5f3560e1b5020d91a76467b9f4b5f52d9837f4c27ded1a2int,
        -0x58ce834054ba2522f7a47d5ec2636ee6ef36192fad92b852f3dfc58e45a1e796int,
        0x23567f2d80e1d1c439175e3fd3c3a308dc79b7a38695e38014dcfc3ad895edf4int,
        0x3int,
        0xadd0b94c26cb9e6256b9b64624cabad6f1d67c02a486bd116debd9dd9dead8abint,
    );
}

/// A power of a root, step by step.
proof fn power_28(r: int)
    requires
        root(r),
    ensures
        reduces(
            r,
            0x1fffffffe00000002000000000000000000000001ffffffffffffffffffnat,
            0xfab57a5f716a04284fe70a106a3ffa26ba3449ca06ed9f27374330e1e37c0567int,
            0xdb6dc8ed3b5253c27d92cecdef193d29165e295b4ff0b578f566b0598c940defint,
            0xd0dc7d78701a96e41f1b49f3e8a09cec1b8e9fb841999cd713e8bb040c307c5dint,
        ),
{
    let (p, b) = (
        0xffffffff00000001000000000000000000000000ffffffffffffffffffffffffint,
        0x5ac635d8aa3a93e7b3ebbd55769886bc651d06b0cc53b0f63bce3c3e27d2604bint,
    );
    power_27(r);
    let e = 0x1fffffffe00000002000000000000000000000001ffffffffffffffffnat;
    let e = lemma_reduces_square(
        r,
        e,
        p,
        b,
        0x23567f2d80e1d1c439175e3fd3c3a308dc79b7a38695e38014dcfc3ad895edf4int,
        0xadd0b94c26cb9e6256b9b64624cabad6f1d67c02a486bd116debd9dd9dead8abint,
        0xb5213ff901c14ea108de16cd31023a00f8ebb7cde26b940c61493549240abdf0int,
        -0x5737073338cc45115ea41a2eb18d46e9e79a11582e039b8266a2a97da5cc2240d4918234c031201c49c85436e2ecaa43800b9d478ea1794d0c96fac5765207b5int,
        0xf7a480d62df129efc722c73ff3a5ae0fa604862c03d718e1c6da68e3c4a5cffbint,
        -0x2d714d01eaafd3ed3bebfd3e6f3f9d35c9a37debd6d3b8411695e151641c7e2074b529da085dba2eec465de2dd0b6be69f69f950b3e6536768c6ad352060360cint,
        0x339436fce41496dd15bb922d58c94825a32b7d57a3131654945ff22b8a8c9eccint,
        0x2287d5cc42a1c109ef6f9b11b90441467917eb3ce9c901d9bfdb08fd97c417b99int,
        0x1a8723406f4bb7559c1a49511e4efddfa0d8f385f3b41dd21f7e427566cbb252int,
    );
    let e = lemma_reduces_next(
        r,
        e,
        p,
        b,
        0xf7a480d62df129efc722c73ff3a5ae0fa604862c03d718e1c6da68e3c4a5cffbint,
        0x339436fce41496dd15bb922d58c94825a32b7d57a3131654945ff22b8a8c9eccint,
        0x1a8723406f4bb7559c1a49511e4efddfa0d8f385f3b41dd21f7e427566cbb252int,
        -0x9680c7e6254a445353134b4886c52bc8e3c0887a1abcdf6885bafcf2668a66bint,
        0xc674fd0206ae88b9da07168e2b6ddf921dd308c537f996a376a70e2093c75b8fint,
        0x1int,
        0x4739ea987bd44fef9b71a3334e92a7ae888f60bcdef3725825553043f908e6f2int,
    );
    let e = lemma_reduces_square(
        r,
        e,
        p,
        b,
        0xc674fd0206ae88b9da07168e2b6ddf921dd308c537f996a376a70e2093c75b8fint,
        0x4739ea987bd44fef9b71a3334e92a7ae888f60bcdef3725825553043f908e6f2int,
        0x339436fce41496dd15bb922d58c94825a32b7d57a3131654945ff22b8a8c9eccint,
        -0xa2d587dcea74f47f16925e4ec810dff53a00dc8f04dac77835eee5fe276e9c8ece7d639c154fd1b580167b34f0c5defbc47a8fb9c3031fbc7488a31d8487050int,
        0xb20287939d596ebae657b92a6234217d930537694ce1762f6771e24d44a57301int,
        -0x3af56e38b64a0e93d4e86ba309e813731399ed036ec357c95f340ec21aee1b3e7c8571c9fe494940273646eec95b796b22c5896b971b696c11fadb073b38732int,
        0xc8af2a299d92b1c0492cf9db86c99db1ed4baa2fbc5aa8123134e54ad6b540aint,
        0x82f6c1b95b80139fd21660b001cf1159494b41f19680682c60569ea996fdf536int,
        0xff01bf29bcbdf04720e08fa0a8598818e14fa747f46e47315af9cef78a7d7992int,
    );
    let e = lemma_reduces_next(
        r,
        e,
        p,
        b,
        0xb20287939d596ebae657b92a6234217d930537694ce1762f6771e24d44a57301int,
        0xc8af2a299d92b1c0492cf9db86c99db1ed4baa2fbc5aa8123134e54ad6b540aint,
        0xff01bf29bcbdf04720e08fa0a8598818e14fa747f46e47315af9cef78a7d7992int,
        -0x5a6c0e3210ad4188f7316fd6d59ca20dd179d64838e7ae331bc4c53b604550c9int,
        0xfd54e93d9df1a7d43d6ea284094499fdbbc7a1719d229214a5e86281079d5171int,
        0x3int,
        0xaf07c513d3933f8d48f9680c5b40b9c836f42d3e2a2c4bc3785f4f33e41ddfbaint,
    );
    let e = lemma_reduces_square(
        r,
        e,
        p,
        b,
        0xfd54e93d9df1a7d43d6ea284094499fdbbc7a1719d229214a5e86281079d5171int,
        0xaf07c513d3933f8d48f9680c5b40b9c836f42d3e2a2c4bc3785f4f33e41ddfbaint,
        0xc8af2a299d92b1c0492cf9db86c99db1ed4baa2fbc5aa8123134e54ad6b540aint,
        -0x614e52d5836562e0058204fab2feada6b65b29ff2d7430abf27be33990ad1bd2288178cd0467beac454f30c9d5ecf494130ea303c643d2e3806d9ceb3313ce4int,
        0x3c2b80ba620c265079d03183f23bac86f17c0d0e601edfd04da65face7e4e125int,
        -0x37c8b14fa4205d63981746ccd669da301a6c70f74f93e476f456594ccaa162b58907840fb89aca1cbc8d9adbe33f3f35de7d34507143532e92cfff54f160f2int,
        0xb54f53d6d315c0fa37a898d2efced7f242fe260ad84e1260292ab508ced2a78eint,
        0x92568bcad5a707cb90a6d29b9222fc1360f6584f7d1b7ec62ebe37c394028cd2int,
        0x463a7f430b1755033269821e7118bf50ff522ca2545b541668757e1e9bb655f6int,
    );
    let e = lemma_reduces_next(
        r,
        e,
        p,
        b,
        0x3c2b80ba620c265079d03183f23bac86f17c0d0e601edfd04da65face7e4e125int,
        0xb54f53d6d315c0fa37a898d2efced7f242fe260ad84e1260292ab508ced2a78eint,
        0x463a7f430b1755033269821e7118bf50ff522ca2545b541668757e1e9bb655f6int,
        -0x18e6f0c1a50ee4e41e6956d850e6cb42e93b87cb55698b456453bf335dc96dc1int,
        0x944f1c9145d4ea451627f8b5d5fe2f7046f133500c670f9082ddd731a5c3232dint,
        0x1int,
        0xedafe8483522559110cb7df4585ea79ef7292f45d30dc138706da08bb07e308int,
    );
    let e = lemma_reduces_square(
        r,
        e,
        p,
        b,
        0x944f1c9145d4ea451627f8b5d5fe2f7046f133500c670f9082ddd731a5c3232dint,
        0xedafe8483522559110cb7df4585ea79ef7292f45d30dc138706da08bb07e308int,
        0xb54f53d6d315c0fa37a898d2efced7f242fe260ad84e1260292ab508ced2a78eint,
        -0x7761dde76c1237a975356385e4c1701d28133dbce9cda61a9f6b0efe29cd2d3621bd88c4fba132d09e09832932ae22b7bd3bbb0c398f7eb4553f771ad8f6b3aint,
        0x7b3ca3a6fd5b3b9cf8eeae77134b87d99a66b29bfa7ad08318e82c39bd4d650fint,
        -0x2d886ebc4c463662ec46371e0e85a8c265c5320875180f80155f7e116831af7568cc4a76086edc34d08e1fb39149547deadf1085719b5265458488d33895e05bint,
        0x384a75155b4db1dd3bca9d4023af4780761a0b903a397ee96d76baebf93e87a9int,
        0x2542c46f46ea206fdd8ec48b4dffaf807cfacbfdee42be490cbc6b5077d4a4c17int,
        0x2e50dfc262ec6d7d13f5d2584707c0a02044f221be4362751d1949fd8f2cf08fint,
    );
    let e = lemma_reduces_next(
        r,
        e,
        p,
        b,
        0x7b3ca3a6fd5b3b9cf8eeae77134b87d99a66b29bfa7ad08318e82c39bd4d650fint,
        0x384a75155b4db1dd3bca9d4023af4780761a0b903a397ee96d76baebf93e87a9int,
        0x2e50dfc262ec6d7d13f5d2584707c0a02044f221be4362751d1949fd8f2cf08fint,
        -0x106c4af568e8447a8e2440b1fc5c9685ec88cb35f23b0a014d94619b42f9e588int,
        0x344b462d94f9b78af259607dc43c2b8ca03b3e8f0f2c15c5a01ec945d2580093int,
        0x1int,
        0x62f42ef2620841334d0257fe862c9b9fb3589003544f7e270340a326ad436bdint,
    );
    let e = lemma_reduces_square(
        r,
        e,
        p,
        b,
        0x344b462d94f9b78af259607dc43c2b8ca03b3e8f0f2c15c5a01ec945d2580093int,
        0x62f42ef2620841334d0257fe862c9b9fb3589003544f7e270340a326ad436bdint,
        0x384a75155b4db1dd3bca9d4023af4780761a0b903a397ee96d76baebf93e87a9int,
        -0xf6e3cc8d12efe17481935568cc9f3632a6116dc8974ffa8888cbe6538fe9156c512edc890a3512b08b808063828cbf3453bd043060f1b4b6741e9ea0339cc7int,
        0x8a96a08845618dfa4f859a160a5a72dc09881398f957573807bcda7a1d4a6634int,
        -0x46390bc4f173bb857a9f910665ee7063af1d7b289eabe090cc43d450ef2039cdf7407d476c5ed20910fbeab29d81095fa212c2eefb103204310168c1bac1c8eint,
        0x8c1d35ce132e35c30d7f412b8d5dd300cd4797714fb9b7bc9bef6321e63159a3int,
        0x3c47948edc3b03d3ebaebda1439911ed2c12fd7e4eb012d5147cf20c834701f2int,
        0xb939553dc11783576fd95f04dfaf35f7b2dd4033c586ebb64a0eab20c1421e44int,
    );
    let e = lemma_reduces_next(
        r,
        e,
        p,
        b,
        0x8a96a08845618dfa4f859a160a5a72dc09881398f957573807bcda7a1d4a6634int,
        0x8c1d35ce132e35c30d7f412b8d5dd300cd4797714fb9b7bc9bef6321e63159a3int,
        0xb939553dc11783576fd95f04dfaf35f7b2dd4033c586ebb64a0eab20c1421e44int,
        -0x41ad91458783575245e403e079103e3c1cc997ee0e9b852ad15928400027a4b9int,
        0x770714daf0b992915704f8ecaad150bf4fffbe928eb55fcd4a0b8d5d6657fd5bint,
        0x2int,
        0xb642a04388a817fe9f11b724a96814c3221fd43249ec1a5ae5e8dbdc6110c102int,
    );
    let e = lemma_reduces_square(
        r,
        e,
        p,
        b,
        0x770714daf0b992915704f8ecaad150bf4fffbe928eb55fcd4a0b8d5d6657fd5bint,
        0xb642a04388a817fe9f11b724a96814c3221fd43249ec1a5ae5e8dbdc6110c102int,
        0x8c1d35ce132e35c30d7f412b8d5dd300cd4797714fb9b7bc9bef6321e63159a3int,
        -0x46be56b4e4f62e0e905345be8bf9a5cc55871b89351ece795b1ecbcf9ef109404496a8e572191eb50b173b8df9d8b534431460816076c8c45bf09a6e607a998cint,
        0xd31a5e158530175edf6e04633bb66363b35e1ad64dbb00340a110bf457f3d7c9int,
        -0x1b313cc63d475a14db65414317c1f5a9874d970a2b8b99388f460df1b8d5e9ea9d52c759ab2b75e3e16adafef103de2b32b44d4117535a489629b91ef9fc08d3int,
        0xfeda36cc849b89b498ae87bf6194574b7311be7792edf9143b660cc500d1ae5aint,
        0x1ea1d98379b44e4f45a7364cc57c67929673e3a13e3533ddb194bdd406321dea6int,
        0x8aeb0ff59e6e766a47d556b3611c70c9257bd2c54ab6f3ec56205859974c03e7int,
    );
    let e = lemma_reduces_next(
        r,
        e,
        p,
        b,
        0xd31a5e158530175edf6e04633bb66363b35e1ad64dbb00340a110bf457f3d7c9int,
        0xfeda36cc849b89b498ae87bf6194574b7311be7792edf9143b660cc500d1ae5aint,
        0x8aeb0ff59e6e766a47d556b3611c70c9257bd2c54ab6f3ec56205859974c03e7int,
        -0x314232a31ff0c4dbdc9e0533bd65e643dee5fd2fa9057dcb015e83210e6bc481int,
        0xe3f83c65f0b20afb61e1381bce55a153ad8670c592ca9e79ac463afdb85a76d2int,
        0x2int,
        0x73db8df8607b7a9bb6ee087d5f0bb5bf23d193242ddfdbf90c7215011dd7e380int,
    );
    let e = lemma_reduces_square(
        r,
        e,
        p,
        b,
        0xe3f83c65f0b20afb61e1381bce55a153ad8670c592ca9e79ac463afdb85a76d2int,
        0x73db8df8607b7a9bb6ee087d5f0bb5bf23d193242ddfdbf90c7215011dd7e380int,
        0xfeda36cc849b89b498ae87bf6194574b7311be7792edf9143b660cc500d1ae5aint,
        -0x51cb7dca24ffd6534380ab029f5371d51a200dce6bab9aca69d7c9e87b3ead09a6230b19bebd7d27f8df10ffb342cad517bd23b1bb30b5533855bd9abca4ce5cint,
        0x672adee822504af403236bac9fb39924ece1b17b96b530cf63203d5db5d263e8int,
        -0x59f654fe75cdaa7d076bc619b53ee857668c16e8d979b2395cd85f92d9333fd73998fcfe330be86f7de9bf03532e3cac996340d5bf525488954cff6cbbbf8fe4int,
        0xbac9070eadc84564f4adb294dd39ffe1e59c92d671f0b3aa50c12276e1a70310int,
        0x4f375765615f0c4a627ac5db57e96a645241e1209f12c69c0790f095e1362fdafint,
        0x3d45bab743808409a77fe9b7423691166627040f681068b36372baaa0baba843int,
    );
    let e = lemma_reduces_next(
        r,
        e,
        p,
        b,
        0x672adee822504af403236bac9fb39924ece1b17b96b530cf63203d5db5d263e8int,
        0xbac9070eadc84564f4adb294dd39ffe1e59c92d671f0b3aa50c12276e1a70310int,
        0x3d45bab743808409a77fe9b7423691166627040f681068b36372baaa0baba843int,
        -0x15b9f476386f2712b660a757004a6194f58bdaf159d6190a1a902e7a43ad2fdeint,
        0xc7161b2523138fc2de9c8a806df76e096b5787a73f602259cfa22fa7b5f96481int,
        0x1int,
        0x1efc0f0eecd1d70ff9a328d266574c681f56bda8cee66ae98d786d5bd8d55cb2int,
    );
    let e = lemma_reduces_square(
        r,
        e,
        p,
        b,
        0xc7161b2523138fc2de9c8a806df76e096b5787a73f602259cfa22fa7b5f96481int,
        0x1efc0f0eecd1d70ff9a328d266574c681f56bda8cee66ae98d786d5bd8d55cb2int,
        0xbac9070eadc84564f4adb294dd39ffe1e59c92d671f0b3aa50c12276e1a70310int,
        -0x10085229f5e6b4bfbd237bb55485479f56af1fefaf8fc4a601709640beb8d386e73a54d5709c66842b917e893db655a982456509efb65f7e31c2dd6ecda52c9aint,
        0x657458d6ab830d4537e6fd3cf90a93c48ef09010dfaea4f534c9025aba9ff3a7int,
        -0x3053170e6d32b4673e8358a3cd296a09681d0636f9e78740b6770999bd9ccac5a3b292f811302cad46aa36d6ab57c5ed390dae56fe9242e50a53e8a2da01dac7int,
        0xd0dc7d78701a96e41f1b49f3e8a09cec1b8e9fb841999cd713e8bb040c307c5dint,
        0x2bf1f0b32c3b23f1e2a68286a6f1484c9f2da174d299d4f6f211c2bbc02fb3934int,
        0x2753255cda9a6cd46c8e9b305204e3218279ddc37ac0b02beadf39ff9b515e18int,
    );
    let e = lemma_reduces_next(
        r,
        e,
        p,
        b,
        0x657458d6ab830d4537e6fd3cf90a93c48ef09010dfaea4f534c9025aba9ff3a7int,
        0xd0dc7d78701a96e41f1b49f3e8a09cec1b8e9fb841999cd713e8bb040c307c5dint,
        0x2753255cda9a6cd46c8e9b305204e3218279ddc37ac0b02beadf39ff9b515e18int,
        -0xdf1adb717a70162c551af5632e09d12a8447ba0f0f4036bd02dbf1840b46991int,
        0xfab57a5f716a04284fe70a106a3ffa26ba3449ca06ed9f27374330e1e37c0567int,
        0x0int,
        0xdb6dc8ed3b5253c27d92cecdef193d29165e295b4ff0b578f566b0598c940defint,
    );
}

/// A power of a root, step by step.
proof fn power_29(r: int)
    requires
        root(r),
    ensures
        reduces(
            r,
            0x1fffffffe00000002000000000000000000000001ffffffffffffffffffffnat,
            0x60cdb4b670ce1a26fb382f3cd9d5adf0bce6ceba0d7c3a67de520343163378bdint,
            0xdd3a918f4fe8647adb27e892f6176b8dadd531651c75e72a4344d1c5e47c1b84int,
            0xd598db5222fb04a585657e5358bde0cc78c49a0dde7116e6f8c4d7790ddaf38int,
        ),
{
    let (p, b) = (
        0xffffffff00000001000000000000000000000000ffffffffffffffffffffffffint,
        0x5ac635d8aa3a93e7b3ebbd55769886bc651d06b0cc53b0f63bce3c3e27d2604bint,
    );
    power_28(r);
    let e = 0x1fffffffe00000002000000000000000000000001ffffffffffffffffffnat;
    let e = lemma_reduces_square(
        r,
        e,
        p,
        b,
        0xfab57a5f716a04284fe70a106a3ffa26ba3449ca06ed9f27374330e1e37c0567int,
        0xdb6dc8ed3b5253c27d92cecdef193d29165e295b4ff0b578f566b0598c940defint,
        0xd0dc7d78701a96e41f1b49f3e8a09cec1b8e9fb841999cd713e8bb040c307c5dint,
        -0x7ef59372506697f0329f09c6f404dfe632d1c48810e7be42886f7b14bd7fbdf217708b0bf86016df0d9c3ca4b122a9fd35682ee72718f5a48743dc730537c378int,
        0x39ae7f733f6e8ceb6e772199fdce55553b714f8afadfe45468405b0097970e57int,
        -0x3c6c28faf18ca32fc197e739869d98bcd966cb99f1d40474a654998654927a194026726fe2aed851620dbec4e16056ebcfc0dbc26334fc1b8b711270cab10fa5int,
        0xb8664a8ef828c52616a44d409e141687f5220350ddfb24d38c57f1c2e04e25bcint,
        0x45460e6c84b25fc81d51a406df4827e2ac214ecb495309ffc8cfa3c3e24988499int,
        0xeda92cacc15ec0933cdf95177333c99f4ee6e14e08fd2465286dbf438b890bebint,
    );
    let e = lemma_reduces_next(
        r,
        e,
        p,
        b,
        0x39ae7f733f6e8ceb6e772199fdce55553b714f8afadfe45468405b0097970e57int,
        0xb8664a8ef828c52616a44d409e141687f5220350ddfb24d38c57f1c2e04e25bcint,
        0xeda92cacc15ec0933cdf95177333c99f4ee6e14e08fd2465286dbf438b890bebint,
        -0x54457c8ac8e48aa1069b17d6cac5ce22cc49c430915c5059791585973f237c13int,
        0x326abcc89c1322b477b4234af8e6c8df979dc7c12eb12bc7ad49cf24e777e614int,
        0x3int,
        0x2aa057c838acea22515e0e05769b2332825f37215d75183e18998cb3a32321bint,
    );
    let e = lemma_reduces_square(
        r,
        e,
        p,
        b,
        0x326abcc89c1322b477b4234af8e6c8df979dc7c12eb12bc7ad49cf24e777e614int,
        0x2aa057c838acea22515e0e05769b2332825f37215d75183e18998cb3a32321bint,
        0xb8664a8ef828c52616a44d409e141687f5220350ddfb24d38c57f1c2e04e25bcint,
        -0x15c64dfc2fd2344a77d617136f0c3c186a27f9b1ce2a03980d4f1708c3bcc39be54bf2f0a663b08a3f19933756af7713c4493ab8fcb1001b2b90eb9d2c251feint,
        0x32b4bb39f7ed14cc9cb95dcc0eb95dac2abb03486a849add19327e5fdb0dd75aint,
        -0x2f19179729013e9cd93187d847911cd7adb1e4b2f9db8c8768d3f0addf155edbdd2f60a3bf4806a3c3a7bb1a6906da7f89974596c77bb556af9750a1b21f7334int,
        0xe708a2375a279f7abd4166d3017a209dc4e1f30c9165f78a0e92d6c52999db4cint,
        0x1d7226ef6f54f888a71a55d189b39db10bfe81155b36ad0111d6fda2a31646f06int,
        0xfe74dbc79fb7308fd1e8f1ac134bb0a180ec711070f3c18a10705923eaea596fint,
    );
    let e = lemma_reduces_next(
        r,
        e,
        p,
        b,
        0x32b4bb39f7ed14cc9cb95dcc0eb95dac2abb03486a849add19327e5fdb0dd75aint,
        0xe708a2375a279f7abd4166d3017a209dc4e1f30c9165f78a0e92d6c52999db4cint,
        0xfe74dbc79fb7308fd1e8f1ac134bb0a180ec711070f3c18a10705923eaea596fint,
        -0x5a3a192c12139fdd4a46545c57adf3d0f0d26f529db3e7f43fb3dfe4111c537cint,
        0x774b5732bfa66e6320850d26b68cc0be9c51bba76bbb714d7aa75bef4a3d8ffint,
        0x3int,
        0x2e134e93d712a679127432d0489c6f90ad805676bd5fdf7b4a8389cb9bcce3aaint,
    );
    let e = lemma_reduces_square(
        r,
        e,
        p,
        b,
        0x774b5732bfa66e6320850d26b68cc0be9c51bba76bbb714d7aa75bef4a3d8ffint,
        0x2e134e93d712a679127432d0489c6f90ad805676bd5fdf7b4a8389cb9bcce3aaint,
        0xe708a2375a279f7abd4166d3017a209dc4e1f30c9165f78a0e92d6c52999db4cint,
        -0x1d7d238308f50df81daa7d34051808e7ffd4d88fb5d5aaea5ce625656be55f91305494611d10893ce60530c79e41e9eaef01d26f297a023bd6864dbb0cdfb544int,
        0xbafee6821117771eb2fb6ea05da7efaf05e995fd30e6fc69c8684fc6076cfa6dint,
        -0x49eea3b450fffa19a2b1d170e0ebc734cbef21bb2737004ec0172d93022e2a119bc932eb22b99077a27ce91cb2769e6bc7b9370a45884bccbea15059e30ef15eint,
        0x1ecd1709b372e66d63cb47619778c6ea59856c3a7dc5246490eb6f388d9a1eeint,
        0x28741d107d713580e1da77333272796fbf77f3aab0d0030fec1ef03ea811c99a8int,
        0xb857e9ba019058302016ec329cf3fea34b80ba9d64499215711741ff41f803a4int,
    );
    let e = lemma_reduces_next(
        r,
        e,
        p,
        b,
        0xbafee6821117771eb2fb6ea05da7efaf05e995fd30e6fc69c8684fc6076cfa6dint,
        0x1ecd1709b372e66d63cb47619778c6ea59856c3a7dc5246490eb6f388d9a1eeint,
        0xb857e9ba019058302016ec329cf3fea34b80ba9d64499215711741ff41f803a4int,
        -0x415da2f0a3ecde7b8463a007781e0ce95fb0de42ce6f529883d1848480b88ac6int,
        0x4aaabc8773c1aff05694c834027fd470e65974dc93b4394ac64a353d31b8e42eint,
        0x2int,
        0xe406a3b215c87fad134033383483eb98e86bc5d35dc3b2aa1bae15c3cd55055bint,
    );
    let e = lemma_reduces_square(
        r,
        e,
        p,
        b,
        0x4aaabc8773c1aff05694c834027fd470e65974dc93b4394ac64a353d31b8e42eint,
        0xe406a3b215c87fad134033383483eb98e86bc5d35dc3b2aa1bae15c3cd55055bint,
        0x1ecd1709b372e66d63cb47619778c6ea59856c3a7dc5246490eb6f388d9a1eeint,
        -0x1374da3b54ebfdcea8d329ebe07b1f5b7bfae44b5feeb7089a87362f4f14a74a4edde00acb30e55e0ca82227b8eaa3c5842b00bfc6f5219d72032d2a9b3b23aint,
        0x59880c6e00a421105c07693b277ada645e44049abcf4591df28624147ecb5dceint,
        -0x150666d6f485485310e36340159815b5aadc46ba2c9258371dc83a138feafb54515b8644edd6bc18835badee0ae19c6567f0866ebf18e1076fbd0fa59ff3bint,
        0xafaf988adc378194789971614e4ca185425cde2ae7b42e5aa84f1db2bf420029int,
        0xcc466c54550bdcbb8873f35015ab26537940271d65043d1d01be9587049044e9int,
        0xce1dca7c7d2a1e4c16a0186d1f88aea43b179b986faf59099c5193326d9cc096int,
    );
    let e = lemma_reduces_next(
        r,
        e,
        p,
        b,
        0x59880c6e00a421105c07693b277ada645e44049abcf4591df28624147ecb5dceint,
        0xafaf988adc378194789971614e4ca185425cde2ae7b42e5aa84f1db2bf420029int,
        0xce1dca7c7d2a1e4c16a0186d1f88aea43b179b986faf59099c5193326d9cc096int,
        -0x49160f95467d3e0eb45a700129d154e512cc86bc6d49809709806fcc5182bbfcint,
        0xf9aa669cebe2248cb4eb69df87f82642fabc3d8a7a7e2a115187ef11f44c9812int,
        0x2int,
        0xc3e16be578227bf29fe7b2828614e6510f8ad7620c02643ac77addabc7a19f92int,
    );
    let e = lemma_reduces_square(
        r,
        e,
        p,
        b,
        0xf9aa669cebe2248cb4eb69df87f82642fabc3d8a7a7e2a115187ef11f44c9812int,
        0xc3e16be578227bf29fe7b2828614e6510f8ad7620c02643ac77addabc7a19f92int,
        0xafaf988adc378194789971614e4ca185425cde2ae7b42e5aa84f1db2bf420029int,
        -0x5f551fd4b8c0d39be32807b9a5bdf948b416c83cdc0552724a027b14335ca4ef22feb1bdcef0d4ee00ddb90493f8dbd76e4c6084506f88150bcf80e3119d0677int,
        0x6e7e13a60b39ac29dfaf08fda2f790ae055f8f8dfddf7a04d6fa504758ff6d61int,
        -0x2ac084cbc374c737574921d4a785e8e094d5746b26c988924681e593ee5e84c9c648b6baa4b06e4b7920025a6649c29c9d61825e4055f6d0c5d693b30a47a2e3int,
        0xfae25f6ff3e528df55dc905f51f9ba6752d6108908f027bf1222686a9bd13776int,
        0x356434aad0fb8e29f31c48795823d7f2b59011de620bccddfc8311d669614528fint,
        0xa82c3826570605809dd72893bcc1e55f8b0bf217e96ed60d1fe69e92fa6bcb4aint,
    );
    let e = lemma_reduces_next(
        r,
        e,
        p,
        b,
        0x6e7e13a60b39ac29dfaf08fda2f790ae055f8f8dfddf7a04d6fa504758ff6d61int,
        0xfae25f6ff3e528df55dc905f51f9ba6752d6108908f027bf1222686a9bd13776int,
        0xa82c3826570605809dd72893bcc1e55f8b0bf217e96ed60d1fe69e92fa6bcb4aint,
        -0x3ba1c150a0a456bd5302c11d85927b191d5a232bf69a80a883ed9accadbd124cint,
        0x9bf770d43036383f27e7739eacbc6082ace7eb0d9db02234a20665ea7fbe9f06int,
        0x2int,
        0x6702bc1b104bbca9b93482b8d93d40cca68365d3ba2bfc2c36ae2c004842cf41int,
    );
    let e = lemma_reduces_square(
        r,
        e,
        p,
        b,
        0x9bf770d43036383f27e7739eacbc6082ace7eb0d9db02234a20665ea7fbe9f06int,
        0x6702bc1b104bbca9b93482b8d93d40cca68365d3ba2bfc2c36ae2c004842cf41int,
        0xfae25f6ff3e528df55dc905f51f9ba6752d6108908f027bf1222686a9bd13776int,
        -0x4797b84d7b088407b6a1f1a9f5f41dd9dab4884eab8f46dec3555090d32e88201b58f2e05c23af3704d89fe668f143d33ca0d8e0441a9dbec37518fa10d4f787int,
        0x46ee7658ab634388430771e302db34f2fdaf389eb905be17fac2f69169be9879int,
        -0x572ebc98cc89c780dd0997f7ae402dc957566b456b41759751ee14a4093c98abd91cfd58e8bdb86c8ef37c783caad8eca5a8027e6c509dcfc9e8fba8faeda8f9int,
        0x98050205f9f2434e1dc30b506786d8fa58b24b035ef997d21a641f0043009a8bint,
        0x43cc310af1ba2cfc47f5621070be37fc1637311363b515ed3288b5366e63be0daint,
        0x429b5515c88b4d1c71681d268f5481179fecd3777bc5478bc3fc78db0f74fc0fint,
    );
    let e = lemma_reduces_next(
        r,
        e,
        p,
        b,
        0x46ee7658ab634388430771e302db34f2fdaf389eb905be17fac2f69169be9879int,
        0x98050205f9f2434e1dc30b506786d8fa58b24b035ef997d21a641f0043009a8bint,
        0x429b5515c88b4d1c71681d268f5481179fecd3777bc5478bc3fc78db0f74fc0fint,
        -0x179e2e1016eff3fce8a13619b8fc4261b55b5b0f6a479a11aced95c63b80d368int,
        0xd38ec6e91ffbee5e31ce9ffdc41d70f0b356882b07b541a74540cc415165b433int,
        0x1int,
        0xec0759b05052adc973fc956b0d8b839dd75b3042c5594bb46b86122981d8ca7int,
    );
    let e = lemma_reduces_square(
        r,
        e,
        p,
        b,
        0xd38ec6e91ffbee5e31ce9ffdc41d70f0b356882b07b541a74540cc415165b433int,
        0xec0759b05052adc973fc956b0d8b839dd75b3042c5594bb46b86122981d8ca7int,
        0x98050205f9f2434e1dc30b506786d8fa58b24b035ef997d21a641f0043009a8bint,
        -0x6365db0663a53c36925f6b6d8144c044fc331884d1b045268e7853eaaa0aaab22981c905c447fb978b4c4aca875c30170886eaa2ef60ee017c015dd534c7cd5int,
        0x2da5688cb9390940f3dd4022ec5502a1d6e7aedb5d80b7874740f0819c1ce7f6int,
        -0x20027c57a13d0de6803e3eb60004fdea4bba9baf257425919b2bf4555abde0d2ddc551c74e08e1ba71859207dd28dde92df85b01a3f745b041cdd8f9e74cdd06int,
        0xfc381ac2b387cbaa8798c407baa52bd53d55b4e81aed0367151e16b253c8f11fint,
        0x20aed4830dc1910037ca45f922ad6ef159f79f045e50ead2b44656e544ce1dde2int,
        0xa06f5f0c400640c46305ef78b34b39c44c349048c316d03a9e295efe992094a0int,
    );
    let e = lemma_reduces_next(
        r,
        e,
        p,
        b,
        0x2da5688cb9390940f3dd4022ec5502a1d6e7aedb5d80b7874740f0819c1ce7f6int,
        0xfc381ac2b387cbaa8798c407baa52bd53d55b4e81aed0367151e16b253c8f11fint,
        0xa06f5f0c400640c46305ef78b34b39c44c349048c316d03a9e295efe992094a0int,
        -0x38e35f4ce2337d89f0d32ad0892b18e765c37bbb2e16fd8e48d5208f4d1517fbint,
        0x9e79871bfd20f4b4207b1f0a4780b825a6d0b5f60426c0c7f5c57f4f53635d25int,
        0x2int,
        0xef385b3794bcb8c1cef0e8d0636afeebb855fb3a6c5283721bd0d7d677ea5d8int,
    );
    let e = lemma_reduces_square(
        r,
        e,
        p,
        b,
        0x9e79871bfd20f4b4207b1f0a4780b825a6d0b5f60426c0c7f5c57f4f53635d25int,
        0xef385b3794bcb8c1cef0e8d0636afeebb855fb3a6c5283721bd0d7d677ea5d8int,
        0xfc381ac2b387cbaa8798c407baa52bd53d55b4e81aed0367151e16b253c8f11fint,
        -0xa724a5c2b0690fd0a345d4c614f354cd13554982813460194d84091a436de37d131a292c33604312078a72869cb5ce47c72f928cb163bed12c9f12c4956fe5fint,
        0x7fa57fb26a6bce3049ab2c8c6c4f97973e614bbc08c63c7e19f858bd57c8f38aint,
        -0x581cdf74dc4482ecdc3e7daa9e439758ec6ab6f9dcc422124fcbd1713fc31449b88ad65d22927520b9995f435bd80017ae561efcb684fd8076508cd972c3bc9dint,
        0xd598db5222fb04a585657e5358bde0cc78c49a0dde7116e6f8c4d7790ddaf38int,
        0x4229fc587ed3a8797b426d4e07369313f27d978accd7b45bec8b1fbc000493385int,
        0x1f31b09ef729876e307ee95783429bfccfd14c8db13a8e3963197dad843bb7feint,
    );
    let e = lemma_reduces_next(
        r,
        e,
        p,
        b,
        0x7fa57fb26a6bce3049ab2c8c6c4f97973e614bbc08c63c7e19f858bd57c8f38aint,
        0xd598db5222fb04a585657e5358bde0cc78c49a0dde7116e6f8c4d7790ddaf38int,
        0x1f31b09ef729876e307ee95783429bfccfd14c8db13a8e3963197dad843bb7feint,
        -0xb0f9f16392374af26c1bdb1795762c5349537975fe3b402649f6fc826f25fd9int,
        0x60cdb4b670ce1a26fb382f3cd9d5adf0bce6ceba0d7c3a67de520343163378bdint,
        0x0int,
        0xdd3a918f4fe8647adb27e892f6176b8dadd531651c75e72a4344d1c5e47c1b84int,
    );
}

/// A power of a root, step by step.
proof fn power_30(r: int)
    requires
        root(r),
    ensures
        reduces(
            r,
            0x1fffffffe00000002000000000000000000000001ffffffffffffffffffffffnat,
            0x339ce0f9e0588665fec8921af4bcaf14eac373f4898fbcaaf6623e3305bbeb10int,
            0x9604268f4fab4a09fce5f3b02878d49bcfae7b3caac22612ec44adad8209e739int,
            0x6f33dfc382506d5f4946c16d8c6cd7e598c1ac6448300eb213a75dac4119cfb6int,
        ),
{
    let (p, b) = (
        0xffffffff00000001000000000000000000000000ffffffffffffffffffffffffint,
        0x5ac635d8aa3a93e7b3ebbd55769886bc651d06b0cc53b0f63bce3c3e27d2604bint,
    );
    power_29(r);
    let e = 0x1fffffffe00000002000000000000000000000001ffffffffffffffffffffnat;
    let e = lemma_reduces_square(
        r,
        e,
        p,
        b,
        0x60cdb4b670ce1a26fb382f3cd9d5adf0bce6ceba0d7c3a67de520343163378bdint,
        0xdd3a918f4fe8647adb27e892f6176b8dadd531651c75e72a4344d1c5e47c1b84int,
        0xd598db5222fb04a585657e5358bde0cc78c49a0dde7116e6f8c4d7790ddaf38int,
        -0x82e72e1116f2ba1661018817c402c098042debe7bdc7f605c7e83120dbb6478153d4eb5cecb95c324f05216ca0b7e8ddba237b88f503dc173dddc97f0e9ad0cint,
        0xbedc12f14384d7b189c28cfaad46046071d20b9926f16edfc85a05daaa820b3dint,
        -0x3f31935a275f0b3facf60dacbd4a02b1dd4ae26937ad1865cbce1761a1672e2a5b4d112c0f0cac6e8df1aa0e6438e0aa780a9f181ed8473c2e28d3593f8a6dint,
        0x8c065822d76d11e6269ae12f2b6c681f8b52a5ff69d9f7243a3c1a17589794fbint,
        0xcb5d726efab811ae186a428e3bd2d246f0b5d1ff27b7a261ef2025181ec6911eint,
        0x68afbd8578f37172a30a0a857e77d4ddf3fa8d213346567a7da6d900115dba9eint,
    );
    let e = lemma_reduces_next(
        r,
        e,
        p,
        b,
        0xbedc12f14384d7b189c28cfaad46046071d20b9926f16edfc85a05daaa820b3dint,
        0x8c065822d76d11e6269ae12f2b6c681f8b52a5ff69d9f7243a3c1a17589794fbint,
        0x68afbd8578f37172a30a0a857e77d4ddf3fa8d213346567a7da6d900115dba9eint,
        -0x251ed692a3012b8e3a4c6b930e929ae432a72baca40f5fadb69a9a4fb0897c26int,
        0xf59c7fcc50a3a9a9950324f294b3c4720897a187a75cc40b21dc0b92eb699790int,
        0x1int,
        0xf8eb4b82ae5f2c0872e0ac8b28ad82fa4dc1b2fbc0c4724f414e90dade9b3b18int,
    );
    let e = lemma_reduces_square(
        r,
        e,
        p,
        b,
        0xf59c7fcc50a3a9a9950324f294b3c4720897a187a75cc40b21dc0b92eb699790int,
        0xf8eb4b82ae5f2c0872e0ac8b28ad82fa4dc1b2fbc0c4724f414e90dade9b3b18int,
        0x8c065822d76d11e6269ae12f2b6c681f8b52a5ff69d9f7243a3c1a17589794fbint,
        -0x608e25993d473c14175364617cf416735e9f619e06c1b77275d10ec4f22aefdbf6b33213bdfee5b47ce2a249e4ff56a420380072770a2a68dd99599876e1d2fdint,
        0xd8ffaa692a62f2bdfeb34684a83f8304cdad8be3ab91dcff66437a684ba12e53int,
        -0x1b285d6c478d5431eb2dedfdea636d44f8690f54287165b2094c0e52610802552a955c4b135aca5f09faf8f581b1fcdbd9603f80ccb755ea23b0ee0a38005985int,
        0x63cfb1246bd7891965f49544c73961f33f6a0a81fcd33917e5b352fe163d7358int,
        0x2e47ce47ac9e6b53aac310485b3de486e820f6b5c47bc5e0658d0a131588518f6int,
        0x69f6b9ed0162dedbbdd8de64f9e554c052e03bac762e723ec89c2f760dce69e1int,
    );
    let e = lemma_reduces_next(
        r,
        e,
        p,
        b,
        0xd8ffaa692a62f2bdfeb34684a83f8304cdad8be3ab91dcff66437a684ba12e53int,
        0x63cfb1246bd7891965f49544c73961f33f6a0a81fcd33917e5b352fe163d7358int,
        0x69f6b9ed0162dedbbdd8de64f9e554c052e03bac762e723ec89c2f760dce69e1int,
        -0x2592c87b087fa5253cab653426ff7a8b21056501def5d0ef0c267cf0afcfae50int,
        0x3f6a26bb1cc1f95b497ba4dc9c2edd2f599781326a4e898dea7d3059bb70ecc5int,
        0x2int,
        0x16e3d8322e8b8f4f383de1b395ef8145c64e3ee70e1d33bbc01808ca750c6bf8int,
    );
    let e = lemma_reduces_square(
        r,
        e,
        p,
        b,
        0x3f6a26bb1cc1f95b497ba4dc9c2edd2f599781326a4e898dea7d3059bb70ecc5int,
        0x16e3d8322e8b8f4f383de1b395ef8145c64e3ee70e1d33bbc01808ca750c6bf8int,
        0x63cfb1246bd7891965f49544c73961f33f6a0a81fcd33917e5b352fe163d7358int,
        -0x6543cb1b106c35049e8f1c05a90f2f40edb10cc1681158181d2cf14b2a8305c04241d7a3103e904db10836b3baaa42bb51fb75c7bde2ec9b558f128fea19538int,
        0x7ebc13efa4bfe15276a808944e5bef244c1baad0bfd844868c31b4f457fe26e1int,
        -0xdcc7ff1a47e26ebf33f19682568b1d07c2e88eae28d3b7f296e749ca4651c5968fc9a69836bd5c597e03398f74fbd382924397d4cd2c4f8d2df85d524f8e8a8int,
        0x1800570c67041ce9c027f4da81040dd40fd90d1eec145663eb01cff7d28a15c8int,
        0xa83dd5daf4263ca15e6bc98492ea96db5086d8c97e2dc028280393793507ae33int,
        0xcd988c53fda6e1b757a01d0e4413049f3cd8ffdc34097d10d69c194519c73ea3int,
    );
    let e = lemma_reduces_next(
        r,
        e,
        p,
        b,
        0x7ebc13efa4bfe15276a808944e5bef244c1baad0bfd844868c31b4f457fe26e1int,
        0x1800570c67041ce9c027f4da81040dd40fd90d1eec145663eb01cff7d28a15c8int,
        0xcd988c53fda6e1b757a01d0e4413049f3cd8ffdc34097d10d69c194519c73ea3int,
        -0x48e6d090ef83cde77ff496938965aa190ab17e0fa279e1ac5bb7b76b56cc6597int,
        0xa144e07010bb94b7dbac4dc41809ce4fb82a8727a1b11ad7105d18352da120a8int,
        0x2int,
        0xe785b8ed9db486767d885fbf1a94fd0202a6aa635bf4bbb9100600c3a553e2ccint,
    );
    let e = lemma_reduces_square(
        r,
        e,
        p,
        b,
        0xa144e07010bb94b7dbac4dc41809ce4fb82a8727a1b11ad7105d18352da120a8int,
        0xe785b8ed9db486767d885fbf1a94fd0202a6aa635bf4bbb9100600c3a553e2ccint,
        0x1800570c67041ce9c027f4da81040dd40fd90d1eec145663eb01cff7d28a15c8int,
        -0xf64c4cb1c594d3f51e7d4bb82bc1cebad392218769af2fa7dcf5ff46e412a4f9ebb6d5bf2375ffb2a242f4690cae4c7d88ce27d103ce102d00aa356dad5ff17int,
        0xfafc315cfd2367b772b56ea994282ff8f168cbfd3d2a4e5718e1ede3344084e9int,
        -0xcc43c2c72fd4c9b92e6050e300953e11cd746262ca3d1a1e2f0bd21f5c54d5b4b98c04e1edf6aefc1edbb59f4e2b0e107b3d76bd4fc926cf5adc9db8f81d06int,
        0xac0092e9c594f29f5c0c6845d80c1c9272ab2cc5f78ef9d2c8dcff27811e5c3aint,
        0xf66022503c25d2df581806ddbf79895595f3f06d735531f2a1c39ffd54aec82dint,
        0x5f3781ca7164069ec6f72e6a90c6ccba598c570bc093bd6367c417228e9175fdint,
    );
    let e = lemma_reduces_next(
        r,
        e,
        p,
        b,
        0xfafc315cfd2367b772b56ea994282ff8f168cbfd3d2a4e5718e1ede3344084e9int,
        0xac0092e9c594f29f5c0c6845d80c1c9272ab2cc5f78ef9d2c8dcff27811e5c3aint,
        0x5f3781ca7164069ec6f72e6a90c6ccba598c570bc093bd6367c417228e9175fdint,
        -0x21c33c96c4392c57d9ae2661a7965648d35e4d86150b654bffb813729794d7fbint,
        0x5a66b186b0b8854a7d2ab1a4c5f8a04af6d31ee40ecc9524f39f3464c304b6e6int,
        0x2int,
        0x18a2b6be514f7b91c79af9e9467c9627fe0dd11e7ee58681502e334adff4e6e2int,
    );
    let e = lemma_reduces_square(
        r,
        e,
        p,
        b,
        0x5a66b186b0b8854a7d2ab1a4c5f8a04af6d31ee40ecc9524f39f3464c304b6e6int,
        0x18a2b6be514f7b91c79af9e9467c9627fe0dd11e7ee58681502e334adff4e6e2int,
        0xac0092e9c594f29f5c0c6845d80c1c9272ab2cc5f78ef9d2c8dcff27811e5c3aint,
        -0xbbd09cddfbb0ce2425f39d63231ff14dc7907cb719a2dd5f77bae3a036a0b271f7dc3d4eb6e1a3d0300f8437cea003e361d956e7bbf865fd718ae76c12d9949int,
        0x204ede30259a1423c0e0ec6cb583f388b8f9b6be05a75a3e6c44747f607204e3int,
        -0x28fa5faf0e9aadb4a6dfc49aa07df6469d9c90a1e142bff74547d444ab6696c177a21ba43a9ca6db71799aedf951ba42b21545228678a8a688fc6005d86cae33int,
        0x9af26877f636db70db651298419c0ad382b4392909bb1b61940025346bcc991int,
        0x1d68ba03fecfb76e10216a85d982c5c3ff14f4de9e1744f3bb23c6f84f1abebe8int,
        0xad3d62ac4a7da788e6e006c2e531bf68e584faf4a59427259568deb2a0ac3310int,
    );
    let e = lemma_reduces_next(
        r,
        e,
        p,
        b,
        0x204ede30259a1423c0e0ec6cb583f388b8f9b6be05a75a3e6c44747f607204e3int,
        0x9af26877f636db70db651298419c0ad382b4392909bb1b61940025346bcc991int,
        0xad3d62ac4a7da788e6e006c2e531bf68e584faf4a59427259568deb2a0ac3310int,
        -0x3d6db69b754ad5019aede2c9840570981433f3ccd73b63a1c460867330a61a6fint,
        0xe7227fd6b7f1b6d0654dcc2d10c8dd2b118233e807f6a9bf30d5180dd6a0efe1int,
        0x2int,
        0x2807063705130abc758100b5651931c36988a799f663cfaf2c7f109742769e15int,
    );
    let e = lemma_reduces_square(
        r,
        e,
        p,
        b,
        0xe7227fd6b7f1b6d0654dcc2d10c8dd2b118233e807f6a9bf30d5180dd6a0efe1int,
        0x2807063705130abc758100b5651931c36988a799f663cfaf2c7f109742769e15int,
        0x9af26877f636db70db651298419c0ad382b4392909bb1b61940025346bcc991int,
        -0x112e631c207ba956d76974e8bbfd94bbb8a29c7b04af9a4126380ef89853c725d47b603a33f842d608f8ebfba12f52e35638efa7b0be4d8e9d1a768267d50e7int,
        0x9b70aa08afecc24cd61232e232ee26c0579f4e42109111e08e865b8a4fa8c8acint,
        -0x21411dc81918fedeef84adc741fbc9af9070074fa84742539699dbe6ec0409223cbb738513f81bf0c3b17fbe92f3e9546017cbe15ca65df59c859561fd9856int,
        0x73a8863db5bc9ffbb26d64526609cef119b60feb277cc680fe07b1f474fd1247int,
        0x18d83f7f1a78e98cbc63f786deb3dfdc2f4f7b08fac2a5a8a1320c1f2c6c9820int,
        0xce54b2c53380d4e5c30ff7d880bc80258f660145dd608970674a17f73de4a11eint,
    );
    let e = lemma_reduces_next(
        r,
        e,
        p,
        b,
        0x9b70aa08afecc24cd61232e232ee26c0579f4e42109111e08e865b8a4fa8c8acint,
        0x73a8863db5bc9ffbb26d64526609cef119b60feb277cc680fe07b1f474fd1247int,
        0xce54b2c53380d4e5c30ff7d880bc80258f660145dd608970674a17f73de4a11eint,
        -0x492987c20b77c7692a56ecd07c2f0c05e982ec31bcf48269610e05aa59371a2aint,
        0x8e4777426f36049e931aeb0507b5b7c2c2f1be80e34f5c2c1cbb96550bc6720cint,
        0x3int,
        0x66ec25b4a6f40fb1f421a6bb523a73105d15210a8b2ae31c464a3700956ac09int,
    );
    let e = lemma_reduces_square(
        r,
        e,
        p,
        b,
        0x8e4777426f36049e931aeb0507b5b7c2c2f1be80e34f5c2c1cbb96550bc6720cint,
        0x66ec25b4a6f40fb1f421a6bb523a73105d15210a8b2ae31c464a3700956ac09int,
        0x73a8863db5bc9ffbb26d64526609cef119b60feb277cc680fe07b1f474fd1247int,
        -0x20f9e3b10a520f92707f6f6b04406a0183cf63f848aa768d975f409ad2f8aa283e628aa8b032f90cc9c0897b9800b77cbe7484a6f04b6534bad7a6b0701fb40int,
        0x5ee0e96f85b3fe38105b89d070b5c22e5b45adc2db3b3d14ed1ac71005539ae6int,
        -0x128740eb9e9e0d5d00cab200f9f58df111a00dcf06691002f2b0d5e9971185c6dd03a5e79beafbac012c2783e705fa5f3f67a692ae7c6bd432392cb378e9ceffint,
        0x1dd726c780cc23eb815066f793529183321526a791d46cd85b641ab52d616ff8int,
        0x11d7b6fd65902afbc477e814d20545cdf6aaec5cda1dd2eb6530f02645be6a4d8int,
        0xe6920314f364f0bd3565b559348eb2c21c4a65f37dd06a43ab10b342304fdee4int,
    );
    let e = lemma_reduces_next(
        r,
        e,
        p,
        b,
        0x5ee0e96f85b3fe38105b89d070b5c22e5b45adc2db3b3d14ed1ac71005539ae6int,
        0x1dd726c780cc23eb815066f793529183321526a791d46cd85b641ab52d616ff8int,
        0xe6920314f364f0bd3565b559348eb2c21c4a65f37dd06a43ab10b342304fdee4int,
        -0x51c1da8370af3fa03cff26598ec7e40dd71b1951207431bd821726f29577e6e7int,
        0x6c72079b1b8ea6941c8aef9daf8e503e63f5ea9a3eb44830a8164ad9bc844c4dint,
        0x3int,
        0x1296f2b15fe2d06cb08ca9dc0e61da74b024df9a54ac7bdfee4ce0d696433795int,
    );
    let e = lemma_reduces_square(
        r,
        e,
        p,
        b,
        0x6c72079b1b8ea6941c8aef9daf8e503e63f5ea9a3eb44830a8164ad9bc844c4dint,
        0x1296f2b15fe2d06cb08ca9dc0e61da74b024df9a54ac7bdfee4ce0d696433795int,
        0x1dd726c780cc23eb815066f793529183321526a791d46cd85b641ab52d616ff8int,
        -0x18965224b4534aedb6f4d8246ecbba9681957fd910b88e6f73962b1de8379d57b241c825a4e0923cc5ac9ec771d7face20ea4e16578aa1163e7b73c00ef3595int,
        0x50431cb09d24f43e216045f64c4e52b9670b94cc2858841bcd5782e5f1490404int,
        -0x13bbe15555c0d441b2b68730f8222b1e6331b17d366a15931a22dec1828fdaee60c4b52e5375a82fac08990f4ad4581182fb43fa32827c5cf0988d4672db93cint,
        0x6f33dfc382506d5f4946c16d8c6cd7e598c1ac6448300eb213a75dac4119cfb6int,
        0x25110c114465e0070e7f900e1930fd414d1c22a3aa83ae5760eb79a535f2a868int,
        0xc1eb034990d771ef492c8f3df40e2b4b78364cd0d62335fd0a4f0e428595a111int,
    );
    let e = lemma_reduces_next(
        r,
        e,
        p,
        b,
        0x50431cb09d24f43e216045f64c4e52b9670b94cc2858841bcd5782e5f1490404int,
        0x6f33dfc382506d5f4946c16d8c6cd7e598c1ac6448300eb213a75dac4119cfb6int,
        0xc1eb034990d771ef492c8f3df40e2b4b78364cd0d62335fd0a4f0e428595a111int,
        -0x44c2c3b6737ff8ec4cff218e3533d6ada023367ed9e69207978543d2041584f5int,
        0x339ce0f9e0588665fec8921af4bcaf14eac373f4898fbcaaf6623e3305bbeb10int,
        0x2int,
        0x9604268f4fab4a09fce5f3b02878d49bcfae7b3caac22612ec44adad8209e739int,
    );
}

/// A power of a root, step by step.
proof fn power_31(r: int)
    requires
        root(r),
    ensures
        reduces(
            r,
            0xffffffff00000001000000000000000000000000ffffffffffffffffffffffffnat,
            0x92e088642d3312c097d5943a147b76e7b494e0924f03d682e5350a345a27381dint,
            0x1b6b65e0dba268d6bf72f99fba65e1bf30f126868605e87e9d516f57ef5dd84cint,
            0x368fbbcd696676a0341535e2f5c2448c25b58fb7587e14be8d657ae5d2ec63f1int,
        ),
{
    let (p, b) = (
        0xffffffff00000001000000000000000000000000ffffffffffffffffffffffffint,
        0x5ac635d8aa3a93e7b3ebbd55769886bc651d06b0cc53b0f63bce3c3e27d2604bint,
    );
    power_30(r);
    let e = 0x1fffffffe00000002000000000000000000000001ffffffffffffffffffffffnat;
    let e = lemma_reduces_square(
        r,
        e,
        p,
        b,
        0x339ce0f9e0588665fec8921af4bcaf14eac373f4898fbcaaf6623e3305bbeb10int,
        0x9604268f4fab4a09fce5f3b02878d49bcfae7b3caac22612ec44adad8209e739int,
        0x6f33dfc382506d5f4946c16d8c6cd7e598c1ac6448300eb213a75dac4119cfb6int,
        -0x2e36945147fcb9b10dcb0121b3773e28b412a2f5393cbfcb810b77999b4244c5bcfa3b3dbf9352b16017bf69b34ac602dafe2f9418f9e9c788ca759f57c266a6int,
        0xa543083229ed96c545a95600d8ddae32e02f5ee9945c5dffe0317281f8a445d6int,
        -0x1120d4d042489e9d15e60f10d42bdda0d703e1db5df0d86e0702cdb79f1cb07aeb2a9685264a7157c9c59f9bf1044e8c6af11695319104616096ed0f9dc9baf7int,
        0xd7f1b3ae13afd22f1cdefd5a1fead9c7cef548266f4b04f89cabd3ea88cda701int,
        0x115a9e6c21e638e70c0788c9767969a8f0ecbb8721e43362cf57969933fd8584fint,
        0xe209b1870935a4d7371dc62459b373dbd3efe1a54eb9c0e4c7dc67273f63ddecint,
    );
    let e = lemma_reduces_next(
        r,
        e,
        p,
        b,
        0xa543083229ed96c545a95600d8ddae32e02f5ee9945c5dffe0317281f8a445d6int,
        0xd7f1b3ae13afd22f1cdefd5a1fead9c7cef548266f4b04f89cabd3ea88cda701int,
        0xe209b1870935a4d7371dc62459b373dbd3efe1a54eb9c0e4c7dc67273f63ddecint,
        -0x50266b7468114e6b2b65fd9bd6f12fd1cb469c3934208a6d9930f210b15418ccint,
        0x277433b8e832627fece20d3b1ce36d3d8ca935b64a32eb6edf98d7c749996310int,
        0x3int,
        0x4b601cca458e8547eb02a86de5f809c65bff03d68089a0ae37c6a7f7b6cfdf9dint,
    );
    let e = lemma_reduces_square(
        r,
        e,
        p,
        b,
        0x277433b8e832627fece20d3b1ce36d3d8ca935b64a32eb6edf98d7c749996310int,
        0x4b601cca458e8547eb02a86de5f809c65bff03d68089a0ae37c6a7f7b6cfdf9dint,
        0xd7f1b3ae13afd22f1cdefd5a1fead9c7cef548266f4b04f89cabd3ea88cda701int,
        -0x2d17245b78f1ba11bbcce7b7e997e24e1ea9e34e89cb56b481c5df481800b7fc0cd37eda17f802e38bb51940bba0d94216a9686c317e35a7c9a21c0d9c437485int,
        0xe0d26813b3a36a42f201b5caab34970a05d206e4e2375bd951f9316a028c747dint,
        -0x40970de8b3a2a600e4b34d0cb035cd53c44fc1776e53e23d801b9d8ddf314dbd1f7041ca43add0aa69bcad757dd68749c6e7dfeb09ca2613f47c1094977e051bint,
        0xdce2251f3efaf6c5bf982b26e0467b7efcbb99afa50dce5f0c799b23355fe1e8int,
        0x27b38c4094e3f53b63f42c610101665f85469a766eab0c5ece4ffb1d6187c34b2int,
        0x13b7b0cbe90687471477e93b1556aae44a16e9eddb6045e8998a96b6ef6bab1eint,
    );
    let e = lemma_reduces_next(
        r,
        e,
        p,
        b,
        0xe0d26813b3a36a42f201b5caab34970a05d206e4e2375bd951f9316a028c747dint,
        0xdce2251f3efaf6c5bf982b26e0467b7efcbb99afa50dce5f0c799b23355fe1e8int,
        0x13b7b0cbe90687471477e93b1556aae44a16e9eddb6045e8998a96b6ef6bab1eint,
        -0x6fdd8602c5440b0851899348a76a0187f7b4763d6be9701dfb77715199f88c0int,
        0xc77ab170fcfb1f512cba12f29119990ece9698ed6c88bb4cd74d80e2710e1576int,
        0x1int,
        0x1bf97a786eb700172f69717beb3897b6e416c4ad74582d931e98f58ed0cf75d8int,
    );
    let e = lemma_reduces_square(
        r,
        e,
        p,
        b,
        0xc77ab170fcfb1f512cba12f29119990ece9698ed6c88bb4cd74d80e2710e1576int,
        0x1bf97a786eb700172f69717beb3897b6e416c4ad74582d931e98f58ed0cf75d8int,
        0xdce2251f3efaf6c5bf982b26e0467b7efcbb99afa50dce5f0c799b23355fe1e8int,
        -0x111e0fd492371fdc813a4d295f0f9ce058b7ffae2ebaf12ea97a4071d5f99daa19f5c5bf75a1973ed9fb006e222423d3f6e5311c2f12fe8b147a0b56d27c7f8dint,
        0x73f608c326f1431468edd8538263f7fd88b16bdce07b0ffaac87bc4ef54a2057int,
        -0x43941bbac4447e072d32b1ef31693009d5f610b94a3c91dd46bb07a6f9393de73acacf8c68e4044735f1809b785c7fe769382e9f5ffb1a68757658689f0c3a7cint,
        0x1c554796e601a0d7fb7d110783816b536bec272df9bde5021769bd7636f12664int,
        0x3970a4927ed1f8101169f82e4e47578cec823a5972cc471f895e91e03fdf27bb8int,
        0x61f2ca23d37b5841fdbcc76a58e02d435f11e6aefaf34e26e861dcafc0f2da98int,
    );
    let e = lemma_reduces_next(
        r,
        e,
        p,
        b,
        0x73f608c326f1431468edd8538263f7fd88b16bdce07b0ffaac87bc4ef54a2057int,
        0x1c554796e601a0d7fb7d110783816b536bec272df9bde5021769bd7636f12664int,
        0x61f2ca23d37b5841fdbcc76a58e02d435f11e6aefaf34e26e861dcafc0f2da98int,
        -0x22bb31733c9fbcb831070b91c7e1ba91fc861e05f0eca96942fccf4c4e75b121int,
        0x4405f41fff91d0374415b7b9fad62c0cf18107c695eae37f92a7c9869fbb4457int,
        0x1int,
        0x99ce672fa1634bd962242e928d047fc7a5e71fe8d154fa6f65ad525e3822b020int,
    );
    let e = lemma_reduces_square(
        r,
        e,
        p,
        b,
        0x4405f41fff91d0374415b7b9fad62c0cf18107c695eae37f92a7c9869fbb4457int,
        0x99ce672fa1634bd962242e928d047fc7a5e71fe8d154fa6f65ad525e3822b020int,
        0x1c554796e601a0d7fb7d110783816b536bec272df9bde5021769bd7636f12664int,
        -0xc12724814bdc793877bd6ae42ebbe30ef8871407cb2af480d603caa5be011bd464ac3b6f92d7e9ac5d3581a0224832a8e3b748116e94a435a15f9bbbad2979dint,
        0x8132335eb0bd7919745915d921a4dff3c275ea1539bb378d503fd2dc45d6af4int,
        -0x11ca67ab33245429cc423d33ce1609cb216c7390515dd28b447c935006417ed955aa572fc1fc056cd1b4c7e532fbc637ab1e29a30ffca223352bec0ca84dd0fint,
        0x1fca66795a01037839c33911403096552e1afe66ba6749e53be385632ba12201int,
        0x74df495d1b6c82c365d8cc6f0797d606cf16d8ce718f383d9b3ca24326b5fa22int,
        0xdeb41adf1bbd46bb28ce900e9edb1729cb4317cfc46dadd1283d4c5ea4e4bb4aint,
    );
    let e = lemma_reduces_next(
        r,
        e,
        p,
        b,
        0x8132335eb0bd7919745915d921a4dff3c275ea1539bb378d503fd2dc45d6af4int,
        0x1fca66795a01037839c33911403096552e1afe66ba6749e53be385632ba12201int,
        0xdeb41adf1bbd46bb28ce900e9edb1729cb4317cfc46dadd1283d4c5ea4e4bb4aint,
        -0x4ef7bf974ce52b2851cf6044c91a8901f3991c912d13c3c1e031210f8b420580int,
        0x81f9256f047e0ec67f72da0a9d3fbcc93850df58ec729a0ef99d314a76cb5bd2int,
        0x2int,
        0xa42f73d53e43abc111b141896eab937c9df0a60ea0e4bcec4dbbe249b30b9cd4int,
    );
    let e = lemma_reduces_square(
        r,
        e,
        p,
        b,
        0x81f9256f047e0ec67f72da0a9d3fbcc93850df58ec729a0ef99d314a76cb5bd2int,
        0xa42f73d53e43abc111b141896eab937c9df0a60ea0e4bcec4dbbe249b30b9cd4int,
        0x1fca66795a01037839c33911403096552e1afe66ba6749e53be385632ba12201int,
        -0xe75928e2a85bd43807d740b34113ae02cb717c6f40f8bb02589df2a33f6c05871c20786aff6aa6ee8e046d73ad890dedf499bd3b7c6bab4faaa3bcf85fbe4e8int,
        0x5125159d5297487a88125903cd40082575916ec008e3d0d2bc7ab3364a3abf24int,
        -0x1665c73c166252e162f973486a023b5a86338256b40e881c21799ee0528023ecbc1099b14e6d7b093d871919342a7ff3a8eea3a516914aa37e1fa9474f43820int,
        0x975a663a1f36e0e48d02b42bb99f96a8dd42bdb06fdaf62ccff80ae0fe9e1c5dint,
        0x956ca0090feac8658f9138c292b5535b7699aa3565bc88179075042676219b51int,
        0x17040855f292924d480ddb4cf7a7118b0db0f48051ad76eebf6dbaf123ddf688int,
    );
    let e = lemma_reduces_next(
        r,
        e,
        p,
        b,
        0x5125159d5297487a88125903cd40082575916ec008e3d0d2bc7ab3364a3abf24int,
        0x975a663a1f36e0e48d02b42bb99f96a8dd42bdb06fdaf62ccff80ae0fe9e1c5dint,
        0x17040855f292924d480ddb4cf7a7118b0db0f48051ad76eebf6dbaf123ddf688int,
        -0x8293ce40259272c6d6822faae091a19ba2bda139cb376cb537e163fdf4e719aint,
        0xd165d1506e421eb3635e60511e0b8b2be443b785054b340eec01e6146ea7548eint,
        0x0int,
        0x96312e9f2a4eff62603beaeab4353cc69ea44c40fdec359efac3e409b5d4a2bcint,
    );
    let e = lemma_reduces_square(
        r,
        e,
        p,
        b,
        0xd165d1506e421eb3635e60511e0b8b2be443b785054b340eec01e6146ea7548eint,
        0x96312e9f2a4eff62603beaeab4353cc69ea44c40fdec359efac3e409b5d4a2bcint,
        0x975a663a1f36e0e48d02b42bb99f96a8dd42bdb06fdaf62ccff80ae0fe9e1c5dint,
        -0x3ef8f94307bd0586abf21ae728e0aed5b80161fac904608a0546221217c44628b8118cf52704556aa87ca88dccb4e60d61d0534ae0f4fde23c6dd89c272cafb8int,
        0xeee853f5b9d83770a4265daa12fbc66ed301cc2e4c99377e124bd313313ae84int,
        -0x1fbacba3183a4e05444b8708adde5497986978545edd3da89e656f93409d58c0c63aabea9c3df37992936078e25dbf3d75dd76d90b1c5ec8d1ef4c00dea78c93int,
        0x16eea4bf4269988edb01ce4e6f2b698404ada30a5c6339bddcef3c480c563e2int,
        0x25c2af965d9536585220cf80ae90bad4aa5491eda6b709fce54806d21267c7819int,
        0x4ebd5a2eac814f9db9b9f8671734c1bddce16d9a7dabe2dfecf78d06ca7adeb0int,
    );
    let e = lemma_reduces_next(
        r,
        e,
        p,
        b,
        0xeee853f5b9d83770a4265daa12fbc66ed301cc2e4c99377e124bd313313ae84int,
        0x16eea4bf4269988edb01ce4e6f2b698404ada30a5c6339bddcef3c480c563e2int,
        0x4ebd5a2eac814f9db9b9f8671734c1bddce16d9a7dabe2dfecf78d06ca7adeb0int,
        -0x1beb88b81c75ee18c6874a866e2923db19ec1320c25629bcc4e77b3f8c5f41e2int,
        0x8b3f7ae58d8dbc278e768891ca51bac13cdba4ecb124fd2a9b1a87d91bf808eint,
        0x0int,
        0xfb2693cb6121725037704f0fe6ce01a083d465925dcd3c17a80b644592844a94int,
    );
    let e = lemma_reduces_square(
        r,
        e,
        p,
        b,
        0x8b3f7ae58d8dbc278e768891ca51bac13cdba4ecb124fd2a9b1a87d91bf808eint,
        0xfb2693cb6121725037704f0fe6ce01a083d465925dcd3c17a80b644592844a94int,
        0x16eea4bf4269988edb01ce4e6f2b698404ada30a5c6339bddcef3c480c563e2int,
        -0xff4717b130cf6bf8a67aab1ae004247c0be5e6c0b5bdbec39a0393799e5fd5242266664f7cd771fee4a570dd36eeb9b7e3733b27faf9191a5e029d2acdfd68int,
        0xcfb1d38f8d2db0573f671e6a413f6fac9b1845082aa6ae95e442f4d2b00d62ecint,
        -0xba78e6315dab8c1d340ff1ed6da4da3b25b8f3ffcbdaf8ffd4e1da7d412c9bf0039414bfabad9abea19efe65e30017c16f79219df8ebe1a9fac2a2d81083int,
        0x368fbbcd696676a0341535e2f5c2448c25b58fb7587e14be8d657ae5d2ec63f1int,
        0xf683c7d0b4e42b6d668df3c2cb6d86334d989cb450b963ec86466209564262f6int,
        0x6e9330c51a26e82b2aae9e672862260631f2f5d573ca68a2e85a28d7151ad1caint,
    );
    let e = lemma_reduces_next(
        r,
        e,
        p,
        b,
        0xcfb1d38f8d2db0573f671e6a413f6fac9b1845082aa6ae95e442f4d2b00d62ecint,
        0x368fbbcd696676a0341535e2f5c2448c25b58fb7587e14be8d657ae5d2ec63f1int,
        0x6e9330c51a26e82b2aae9e672862260631f2f5d573ca68a2e85a28d7151ad1caint,
        -0x27355c3f39aa444c794cd3e9919dde61313d3d63ab93255f3033c9fc8a9d91b5int,
        0x92e088642d3312c097d5943a147b76e7b494e0924f03d682e5350a345a27381dint,
        0x2int,
        0x1b6b65e0dba268d6bf72f99fba65e1bf30f126868605e87e9d516f57ef5dd84cint,
    );
}

/// No residue is a root of the cubic.
pub proof fn lemma_no_root(r: int)
    requires
        0 <= r < field_p(),
    ensures
        !root(r),
{
    if root(r) {
        power_31(r);
        lemma_no_common_root(
            r,
            0xffffffff00000001000000000000000000000000ffffffffffffffffffffffffint,
            0x5ac635d8aa3a93e7b3ebbd55769886bc651d06b0cc53b0f63bce3c3e27d2604bint,
            0x92e088642d3312c097d5943a147b76e7b494e0924f03d682e5350a345a27381dint,
            0x1b6b65e0dba268d6bf72f99fba65e1bf30f126868605e87e9d516f57ef5dd84cint,
            0x368fbbcd696676a0341535e2f5c2448c25b58fb7587e14be8d657ae5d2ec63f1int,
            0xed31f3b7e1f57596f80c37f95ae2665123a4ae100c3fd1b79e0fd4fa86c24540int,
            0xe2064682e0b89b67347009d7a074489e0ba61223ca75a16af0484bd16bc9ddcint,
            0xa969487079f1744798bf0de6fded091b66e9d328eb0645fe5d979d1339b7f47fint,
            0xa4a08891884100c13323460107a8d28eede4387fa3e6e9bfebec9f6d72d0b5ccint,
            0x4cde11cf86cb876cd59cf0115813c55af0ecd3cda667d98bb9a347a56aa74a6dint,
            0xb54dd7e7b3c6d0a5b88f1fc70fc041575064667efa00f666a5b5a8136ff23bdeint,
            0x759b7274162de6ac6cdb5fecb8d47bd233460222db18a83cead1a6b7978a0efbint,
            0x61d763cfc564afb39f402166e2af02bc6793356799dc1af516eb515ea5ebe7e8int,
            0x2b51f689f9b031b385dbb0ac16dc9643851bd89bdbac177efa0fd1d089fcebc5int,
            0x10620031ae39ee808337c14aaed45666b4cdb8f83487d8992475fd83c9822a87int,
        );
    }
}

} // verus!
