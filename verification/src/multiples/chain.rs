//! The multiples of the generator on the way to its order. Every step doubles,
//! adds the generator or takes it off, and gives its slope and its quotients.
use crate::curve::{field_p, generator, group_n};
use crate::multiples::{
    leads, lemma_leads_double, lemma_leads_first, lemma_leads_next, lemma_leads_previous,
};
use vstd::prelude::*;

verus! {

/// A multiple of the generator, step by step.
proof fn multiple_0()
    ensures
        leads(
            0x100nat,
            0x34a2d4a3b009165987ffd1528603ed61190d0b710d6a564c2db2e35f12d0441bint,
            0xbeaaed6a53a1e3c22bca71046e777fc0e7d766b9deddd81db424e7845e93b146int,
        ),
{
    let p = 0xffffffff00000001000000000000000000000000ffffffffffffffffffffffffint;
    lemma_leads_first();
    let k = 1nat;
    let k = lemma_leads_double(
        k,
        p,
        0x6b17d1f2e12c4247f8bce6e563a440f277037d812deb33a0f4a13945d898c296int,
        0x4fe342e2fe1a7f9b8ee7eb4a7c0f9e162bce33576b315ececbb6406837bf51f5int,
        0xa249bcb3191802d3cb56fc75a8731f848e7b2caf080f3477a4e4d904a671af9dint,
        -0x211d1d206a8228ca3f068bcb77b6c66e965b291a72799fab76713dc1b6ea6cd9int,
        0x7cf27b188d034f7e8a52380304b51ac3c08969e277f21b35a60b48fc47669978int,
        0x66e168103bdfa57cdd53063189a61e37915827bb44d670bd3c287263db86185bint,
        0x7775510db8ed040293d9ac69f7430dbba7dade63ce982299e04b79d227873d1int,
        -0xb51838d2fa990fc8a24a572b59edda8bd8fcf1612aa22bdac765f9f95e4f3a0int,
    );
    let k = lemma_leads_double(
        k,
        p,
        0x7cf27b188d034f7e8a52380304b51ac3c08969e277f21b35a60b48fc47669978int,
        0x7775510db8ed040293d9ac69f7430dbba7dade63ce982299e04b79d227873d1int,
        0xc2489a9eef61dfa06d3741ff3b405300988bd0db42a937859069b9cefb576e35int,
        -0xab9e4db4a865c5d9faa5ffc347a001265457740d67c4105697320488b09397cdint,
        0xe2534a3532d08fbba02dde659ee62bd0031fe2db785596ef509302446b030852int,
        0x93721ef0cd0cb79b4714ba2c81dc32cce646a0350aa32bf6c06d0cf8f458a449int,
        0xe0f1575a4c633cc719dfee5fda862d764efc96c3f30ee0055c42c23f184ed8c6int,
        -0x4cf01d696fc77cd660b950563834767fc99586c7873df1c1e82cf2a1c41e1447int,
    );
    let k = lemma_leads_double(
        k,
        p,
        0xe2534a3532d08fbba02dde659ee62bd0031fe2db785596ef509302446b030852int,
        0xe0f1575a4c633cc719dfee5fda862d764efc96c3f30ee0055c42c23f184ed8c6int,
        0x3d3f7094389059fb29d62c12aea203c23c53ca0f84ba9265d34346d498d0ce10int,
        -0x1eca2fe1da414cb8c30bba9b799e871ee53e653d6a1b8f5b127328ed415e611f7int,
        0x62d9779dbee9b0534042742d3ab54cadc1d238980fce97dbb4dd9dc1db6fb393int,
        0xea74b5f4c11f49cfb1c996f4a267a7e24e2dd3ab6a3c80073e4f8c831980337int,
        0xad5accbd91e9d8244ff15d771167cee0a2ed51f6bbe76a78da540a6a0f09957eint,
        0x1e7f9e38231db0eee368954cb73a3bc7d5c1732370720bc48adfeac55cc17054int,
    );
    let k = lemma_leads_double(
        k,
        p,
        0x62d9779dbee9b0534042742d3ab54cadc1d238980fce97dbb4dd9dc1db6fb393int,
        0xad5accbd91e9d8244ff15d771167cee0a2ed51f6bbe76a78da540a6a0f09957eint,
        0x6fa44fab12ab52ac931dd31283af3f747d8609c5f053383c43a73240f7256e8aint,
        0x24b19cd6409ad7a8ebf18fff6c25c94178f926d878f3778198f0f15f5f193f60int,
        0x76a94d138a6b41858b821c629836315fcd28392eff6ca038a5eb4787e1277c6eint,
        0x30afe68cb6db6b97ca1f5fec553bcc02a797798ddba823867b1c154428680130int,
        0xa985fe61341f260e6cb0a1b5e11e87208599a0040fc78baa0e9ddd724b8c5110int,
        -0x8a3d4dd3b7c308abc6f84be9e7fcff6ab59e76fc341a3ff029059d44362b964int,
    );
    let k = lemma_leads_double(
        k,
        p,
        0x76a94d138a6b41858b821c629836315fcd28392eff6ca038a5eb4787e1277c6eint,
        0xa985fe61341f260e6cb0a1b5e11e87208599a0040fc78baa0e9ddd724b8c5110int,
        0xe9a817f547273aa32a7361a18e9620f2b838a409be826cf083fed49b3c858688int,
        0x9072ff97b17d926efd9a117ef0d8ae7b4f0ecd4d765e7f5492462ccaa1695cc9int,
        0x2377c7d690a242ca6c45074e8ea5beefaa557fd5b68371d9d1475bd52a7ed0e1int,
        0xd54369fcc4f434003a84dfa5183e460e8f6f496e9acf7845786ce5801ccb217dint,
        0x47a13fb98413a4393f8d90e9bf901b7e6658a6cdecf46716e7c067b1ddb8d2b2int,
        0x4beeb28d63c707a6226617c59b06682f99879cc3ea2738df382a7261a99d32daint,
    );
    let k = lemma_leads_double(
        k,
        p,
        0x2377c7d690a242ca6c45074e8ea5beefaa557fd5b68371d9d1475bd52a7ed0e1int,
        0x47a13fb98413a4393f8d90e9bf901b7e6658a6cdecf46716e7c067b1ddb8d2b2int,
        0xcbf7b81fbdea68d4221b26a8e5a24b1cb5e9aaad01ecd82899cd638e1942f764int,
        0x63667132eeb77e71179e7c472d6d34ad329e9a3b76bb38d3c3a824970cff1a30int,
        0xa0643fb8fcc14def67a6a5eb1bf8e9125b35edc7338d816aa4110a6b90ee785int,
        0xa282cdb7cb62af3e62ab0b0f60a0815501e6755e9efbf52aba87d78b076a6a37int,
        0x553438324a9e7955c520dacda2920e700da10d00e7012ed7bac0d100861f9cc2int,
        0x1445a261b4a1c21718a610860c418f6412ceb13f2f9714fe5876d96ef4418384int,
    );
    let k = lemma_leads_double(
        k,
        p,
        0xa0643fb8fcc14def67a6a5eb1bf8e9125b35edc7338d816aa4110a6b90ee785int,
        0x553438324a9e7955c520dacda2920e700da10d00e7012ed7bac0d100861f9cc2int,
        0xfc4b4bd92566c2ad98242459501cf92d7207904e764ab66789942b0325b9a3e8int,
        0xa6c3755500406e7e237b7b435de8475864606c2be7f28b72dde0f29d1a78b5a8int,
        0xae3f7dba0bde8b6ad7ce2f8eede4b762c556dea678f859626a9e6235a674c4f6int,
        0xf8a4537a01fb810f82541949a153c7bcedee185b4b9be615a5e78c13ba5151c0int,
        0x1c0549fc0a69995a24b8c213249db9a97940500d085f8a5c1ee0553e711f4b53int,
        -0xa1d8a2441f341a36c2620d1247c52b6619e2669cefa737076b8e1420acc87683int,
    );
    let k = lemma_leads_double(
        k,
        p,
        0xae3f7dba0bde8b6ad7ce2f8eede4b762c556dea678f859626a9e6235a674c4f6int,
        0x1c0549fc0a69995a24b8c213249db9a97940500d085f8a5c1ee0553e711f4b53int,
        0x93fe002b120dc226d15b0f98b056d3392bfd56b35499e60a5f7ad1ff70675535int,
        -0x143696e79a7ef9e40e7801bd80655d07cfe16fa02ccfe0c3f120e21c080577935int,
        0x34a2d4a3b009165987ffd1528603ed61190d0b710d6a564c2db2e35f12d0441bint,
        0x558db03621c157bab78ed535f8874a47304ba1887fac3cc89e14c9f052b7910eint,
        0xbeaaed6a53a1e3c22bca71046e777fc0e7d766b9deddd81db424e7845e93b146int,
        0x464d9e9c571c4273e719dbbdc7be32f1381b29d60ff5195c10cc369bf7be9842int,
    );
}

/// A multiple of the generator, step by step.
proof fn multiple_1()
    ensures
        leads(
            0x10000nat,
            0xa018366f4e91e90d8e5c643340e586b4714ab749c9052a0503e8465c6eade3c4int,
            0xe2bbec1714110b167c6ce578349d8369d5f7284e44614f37f45c42026b26e8d0int,
        ),
{
    let p = 0xffffffff00000001000000000000000000000000ffffffffffffffffffffffffint;
    multiple_0();
    let k = 0x100nat;
    let k = lemma_leads_double(
        k,
        p,
        0x34a2d4a3b009165987ffd1528603ed61190d0b710d6a564c2db2e35f12d0441bint,
        0xbeaaed6a53a1e3c22bca71046e777fc0e7d766b9deddd81db424e7845e93b146int,
        0x59faa582c6b4f84cf05a7f0a2f866f67a3845d45e19ba871c83298597acc6389int,
        0x65908b9a3d1a9b07610a61685c64e2854fbbe295aa1c4b5f48a1134ce93b2f9cint,
        0x4c490528be759e4e8897bbd818d459aa416b9ae0b3c5dfc3469cea39f3f98deint,
        0x1fa03c7cbc38018ac417ee21214f84cee8d97dcb7399a72c4b143e1267d4e1c3int,
        0x30e50b46405cc74fade84c66242a8107471d9d7b4a4605eeebd949434e8d6e96int,
        0x10d323c1b3aee442cfe42a551d5028ab6f95e6d86f33dbfbed88d1ad5be0e537int,
    );
    let k = lemma_leads_double(
        k,
        p,
        0x4c490528be759e4e8897bbd818d459aa416b9ae0b3c5dfc3469cea39f3f98deint,
        0x30e50b46405cc74fade84c66242a8107471d9d7b4a4605eeebd949434e8d6e96int,
        0xd2b8741587a7b2e52655fc308e92e0b0e32ee6e6b41d84eb93aab4a3a4141961int,
        0x503a09c7e604a3d55063903b049886adf07f07cfb7648f4371921e06776e07ddint,
        0x16949b7287d4f481897299b9eb6fe80ccdc5849ae1d527e280e76bb98e61ca07int,
        0xad73235b1398caab05f72588eb25d26703e6a3828205bc9730748d628b34e502int,
        0xe7a4146d770ededebdf997b75b6012094d2d6ac6fedf983aa09c2be7a0420427int,
        -0xea97ebc0edb4326aa8a00eaafa5cfc3a6a02cbeb18eccfb632229e6033aebbaint,
    );
    let k = lemma_leads_double(
        k,
        p,
        0x16949b7287d4f481897299b9eb6fe80ccdc5849ae1d527e280e76bb98e61ca07int,
        0xe7a4146d770ededebdf997b75b6012094d2d6ac6fedf983aa09c2be7a0420427int,
        0x1c063129ba7b4a48b2e70f43844011c46be00e0e9073b990aa60efa9cee08d40int,
        0x2cbd762e0947a61fa906d84efe5140ae03e46df472ba31019a3f52bc94621b10int,
        0xb01a67f716475f72886a8f4749b86176281b195ff46f925ae1404a861abe45c0int,
        0x3115ae77b42111f5080a77b2e9351ca09138db161589532dfa8fb2eb99249ceint,
        0x7c521bbf5a3956e2acd56b13164ef99472fc676341b62c7fc72f0dbe0090106cint,
        -0x10ce58fcfde67a4a5aa57d97892fbc31cf231643a3301d16c369c94c380a182dint,
    );
    let k = lemma_leads_double(
        k,
        p,
        0xb01a67f716475f72886a8f4749b86176281b195ff46f925ae1404a861abe45c0int,
        0x7c521bbf5a3956e2acd56b13164ef99472fc676341b62c7fc72f0dbe0090106cint,
        0xa2e3cb03c0248e9badcbbcc1c7028566de6e61b104009831a5104754ca52749dint,
        -0xcd37cb1ea242b11d96ed647d47ab030f8010f2b0c8cbeb3a00ffc6e060c2d47bint,
        0xe716aed2cf069e4d997789672e6d6bd2508676f2f4fd0a64f077e8daa245573fint,
        0x67a517a2d0790fbc641d22b8b337805d6fcb19b64c8962109aa6a6482a0f3a76int,
        0x353663e694fc72ab5912b06687b9a851d13d0df2fa07c9b3505fc26b469218d1int,
        -0x22fc9224dd2488d3091e2e9445c9193eb8ec805304d66ca31476d4d8966c8fe0int,
    );
    let k = lemma_leads_double(
        k,
        p,
        0xe716aed2cf069e4d997789672e6d6bd2508676f2f4fd0a64f077e8daa245573fint,
        0x353663e694fc72ab5912b06687b9a851d13d0df2fa07c9b3505fc26b469218d1int,
        0x960ff72703b0a682d458e8c237f82e7c160c43f0388887300239f5caf2144511int,
        -0x2336b7459faa25fd0f83fb582dbfed133da58a5cbbc63c38bc1dc425d805a5142int,
        0x5a57c3e3548207ef2f4541cf25b5e81b6b2e5d2fcec451f4b5113c2b357174b3int,
        0x57f6b6a0f578778672dfa381132a42abb4a59d2232166005d75530dd78b1f810int,
        0x77c7b303e69224601b1165729f3443328886700134bb92888cf5959383437e3int,
        0x5280a4ba101cb7d983c31efcf888a972b6c5070aa629f95cb810d09b1db48968int,
    );
    let k = lemma_leads_double(
        k,
        p,
        0x5a57c3e3548207ef2f4541cf25b5e81b6b2e5d2fcec451f4b5113c2b357174b3int,
        0x77c7b303e69224601b1165729f3443328886700134bb92888cf5959383437e3int,
        0x928ac84a888eeece1f740cddb2fe2c3ad23b782d364f2f64e69fb00ff124a44aint,
        -0x5713610958e9e3f4583845a3c1c4b1c117ea2048936106ad2ef6e9e577f907c4int,
        0x5ce96505eef7208cd10920adecfb86ad1a87a974797e4fc58937f00facb006ffint,
        0x53e297b1e4b56540b3896331de0ed520d07847ebce361e956017652825540b01int,
        0xd16b6ebd381f5ad5ec56d1f22fde7bc3669d20bebd955c2b818dcda107152613int,
        -0x17872691f90e705a2f625594bceaec7166c74971ef0823f505efd9d1437a812int,
    );
    let k = lemma_leads_double(
        k,
        p,
        0x5ce96505eef7208cd10920adecfb86ad1a87a974797e4fc58937f00facb006ffint,
        0xd16b6ebd381f5ad5ec56d1f22fde7bc3669d20bebd955c2b818dcda107152613int,
        0x2f62106edd7774f71f1f577bb87c80a69291fa99d469a7d590bb7efe497f0e98int,
        -0x17a3dc62f4ec84c74bf1ea64ae80d7d3905552af8b3004a80c7b476e81ae7490int,
        0x71a5bd27c625ca1b4b2a3a4635b1043363a5b8311d31a91915261b05d0b79fbcint,
        0x8c5279954069fb396c1ae2bf3fc995a8cc023436bd812bad5edb022fe72b37aint,
        0xc5bf524d066741ffb39452ca1a02f2efc76b6051ebaa32d0c2e37ccc8f277f6bint,
        -0x3d6859cb7acb7b3b01ecf19a5f845c127ce3c0e3408c2aec0a4219bf023544aint,
    );
    let k = lemma_leads_double(
        k,
        p,
        0x71a5bd27c625ca1b4b2a3a4635b1043363a5b8311d31a91915261b05d0b79fbcint,
        0xc5bf524d066741ffb39452ca1a02f2efc76b6051ebaa32d0c2e37ccc8f277f6bint,
        0xdff9619f1fed418640882fc607fbef4ab0b4bb2ee9eb5ea61d7f347eaadfeb72int,
        0xc2a96182651d979e206c51b5e940679f94753b0edbfa3ea47d7eef7dabd348e1int,
        0xa018366f4e91e90d8e5c643340e586b4714ab749c9052a0503e8465c6eade3c4int,
        0xc3f46b030a59d7ce1a56ac5f457a9c7ed24726a05da772c420f83fa09ef6a478int,
        0xe2bbec1714110b167c6ce578349d8369d5f7284e44614f37f45c42026b26e8d0int,
        -0x28a2f6b3ade52d7eb779a5c3272d3d66bbef1b91501b5807062832fb0a9bf435int,
    );
}

/// A multiple of the generator, step by step.
proof fn multiple_2()
    ensures
        leads(
            0x1000000nat,
            0xf8f5dccf4c6a93d7a4a54daafaa3449aa87a8069875405d43725c5dce392d805int,
            0xe58176cf66d63054389d3e336461327351f3da64a52143ba026619516cda02faint,
        ),
{
    let p = 0xffffffff00000001000000000000000000000000ffffffffffffffffffffffffint;
    multiple_1();
    let k = 0x10000nat;
    let k = lemma_leads_double(
        k,
        p,
        0xa018366f4e91e90d8e5c643340e586b4714ab749c9052a0503e8465c6eade3c4int,
        0xe2bbec1714110b167c6ce578349d8369d5f7284e44614f37f45c42026b26e8d0int,
        0x2bb34155d1c3e85258cd7587c389773ca8761dc07d32d1bc095f476c05a7c13eint,
        -0xdef22b29aba6d16e375c64c9e3b736be571eb0e46380508255f85fea3c9ada93int,
        0xcd7ce65d707da2a69ea25487ea254c45eb7d5adffe1ce3eefebccee647a9112dint,
        0x775b5774a9d8ec444189d24746dca7919240786a18512196badefd508424db1int,
        0x85e04a4b4c966f9789b9016aa5ee6708a190aa498bee60a5ffbabe0d3a92b3afint,
        -0x7bfb289d33fd3bcaa2b3b76ebe54885f5ffc8a9c3e4dacd8fd046eec3b63b13int,
    );
    let k = lemma_leads_double(
        k,
        p,
        0xcd7ce65d707da2a69ea25487ea254c45eb7d5adffe1ce3eefebccee647a9112dint,
        0x85e04a4b4c966f9789b9016aa5ee6708a190aa498bee60a5ffbabe0d3a92b3afint,
        0xedfc2e37fb69a62e021b6261a99df3018dc9eee2e4229d1cbff1ba56b4f8e3d6int,
        -0xf5eac62cfdc4cf587801d1e328a12d3e390db731752e691b25a6825c6549bcdcint,
        0xf5f0aea099634718e67d4c73705ae59e8af0bc36c998bef6c88ad96c3212f1aint,
        0xdd3ce5ff8b4da646fe91e258ac771e471ada910b1526c40f5adb4d3c290e1a90int,
        0xf8a8b2b7c8593c955886aadd4ba16b784f5ed40dde29af7c755d7b1e7712b09aint,
        0xb0bcebe17d2916d3c9a9767c3e8743eaa4003690e8661a4094f82f340c2f8f67int,
    );
    let k = lemma_leads_double(
        k,
        p,
        0xf5f0aea099634718e67d4c73705ae59e8af0bc36c998bef6c88ad96c3212f1aint,
        0xf8a8b2b7c8593c955886aadd4ba16b784f5ed40dde29af7c755d7b1e7712b09aint,
        0xb79e006a59b12e979226f397f11da4e07f4c0c6e00d804571e0be779c48ea25cint,
        0x161ef4cddc14e2ce01abb6211836a8e23f33758069122089ac7f7183f6451d539int,
        0x471ad0a8d57f5939f15f0d870ae25c9091428bf4e1e6e9172435158cfc4471bbint,
        0x83b3461d1335799d2bb58e63e4b9d26b1b5d1ce271ff7979aa9c35ad1d7e3edfint,
        0x2234ca62778e8e392a367ab48094d138b0d7e9ff7f23982c454318fa49693a0cint,
        -0x27f9a056bec5df3ec2abcfdfe4c13a70aee551998cd92aa26d98c9972d60417eint,
    );
    let k = lemma_leads_double(
        k,
        p,
        0x471ad0a8d57f5939f15f0d870ae25c9091428bf4e1e6e9172435158cfc4471bbint,
        0x2234ca62778e8e392a367ab48094d138b0d7e9ff7f23982c454318fa49693a0cint,
        0x45fc98da6728684cf421d291dbdaa5438a2bbde9eedf856c54e1d2577a0d15aint,
        -0x3a1468484932f950ce1775d6d72ef897becaa0704fba2eefa955a49ad4288ca8int,
        0xec73885141fe54ffef6a0b570cd98d530e431c1aad5fcfe8f7dcecb7d96dff1int,
        0x132223a317fd183dae3461fa6889f24718e5825010dbea853e2a396e6bafc3int,
        0xd6224f4e87ae875d91acc4ef580652511d5264ce87ed78aa9ec841ac7c7b552cint,
        0xf661bed25ee7f9da3ff32cd506975bfbf40978cf61e118f9e0b2c284996434int,
    );
    let k = lemma_leads_double(
        k,
        p,
        0xec73885141fe54ffef6a0b570cd98d530e431c1aad5fcfe8f7dcecb7d96dff1int,
        0xd6224f4e87ae875d91acc4ef580652511d5264ce87ed78aa9ec841ac7c7b552cint,
        0x3f71d35f5943c9d82c6297d4739ca141ce18dd97535b82f9b6cbf6a3a3bc338fint,
        0x67941f48b67d92be821d28a5d82d65395c41d147ce833c1105aa19884e9c9378int,
        0x477778364e6e1cde059a0e2532c8f0c69ba12b3112fb6dcfb183b5399660b7c9int,
        0xfb938a5465bb47eeb7c8d854c33dc581266f0bf9c8fb28e1a3ba2b2b3242dcaint,
        0x2dd89d00b8389e317373efb6a7c89e8a5e0604c1f142ebcf5c205fa39918c3dfint,
        -0xe0c94472a4b8f443996465f674ac348e87bff443059e25a0e0b010ed10c4d4dint,
    );
    let k = lemma_leads_double(
        k,
        p,
        0x477778364e6e1cde059a0e2532c8f0c69ba12b3112fb6dcfb183b5399660b7c9int,
        0x2dd89d00b8389e317373efb6a7c89e8a5e0604c1f142ebcf5c205fa39918c3dfint,
        0xb063b021ea8c4d521a86be70cefe8cfca350e9ba8c166c8838fe6446dfaba3e7int,
        0x35317331d9849565678255cd667c24320bb16855e2d6713c06ab7c7b2097cfeint,
        0x353d458d3491b5a8c73d989017e14dd22ec38faf35f45d260fd8013b26d69d8eint,
        0x79893900cf7432d4414661c8b7ee5534d786819ee9c7c8a9f724d6b9820e12afint,
        0x9c7d37bf4f5bde243130fde40c040a8a825dfc12fb71a9a8842b9d0020f32b82int,
        0xc8f1be052c39c4846eb4ab824c53d3080ab493f86f8abbb6c178acd3b51b324int,
    );
    let k = lemma_leads_double(
        k,
        p,
        0x353d458d3491b5a8c73d989017e14dd22ec38faf35f45d260fd8013b26d69d8eint,
        0x9c7d37bf4f5bde243130fde40c040a8a825dfc12fb71a9a8842b9d0020f32b82int,
        0xc96ce208d5d84115b06c8101fbdfc996fc19127fb826057aa9a56a342393343fint,
        0xd50a77261ce7488f608fc333eba4d0a040c5a957e7bece75c03775055276364dint,
        0xddad6bf0172e2240d57180ff0b1ba76e28e6bf035dc617ccaf0d4e79e330c098int,
        0x9e7c2941fd51c7cc3b3ccc82cc66d02323ba41142465213be7845669ebda5433int,
        0xb1371e6935a21897530a4736125addafa333bad2db9d1403e5a994d63b67b58int,
        -0x8487b22d2c4435f670ccff0b26aa6fb5b78c9ef8f52591da88a14c6b554bb1b0int,
    );
    let k = lemma_leads_double(
        k,
        p,
        0xddad6bf0172e2240d57180ff0b1ba76e28e6bf035dc617ccaf0d4e79e330c098int,
        0xb1371e6935a21897530a4736125addafa333bad2db9d1403e5a994d63b67b58int,
        0x58cc0685f3b5bd459e0a56513cc139f2ef4c79222658880c7b9e910437232a37int,
        -0x2382f9fac72dbb47c39d4f117176c2a7ce89d31bc0ded77236fc3f00b3544d113int,
        0xf8f5dccf4c6a93d7a4a54daafaa3449aa87a8069875405d43725c5dce392d805int,
        0x1ecce7169c00d05fa887593084f6aca48a6cddf700942fc50490a22075f44164int,
        0xe58176cf66d63054389d3e336461327351f3da64a52143ba026619516cda02faint,
        -0x976a538aee2d92ca7efb581a274fe1c3de5c4b334875e6981b62de6639d9743int,
    );
}

/// A multiple of the generator, step by step.
proof fn multiple_3()
    ensures
        leads(
            0x100000000nat,
            0x7fe36b40af22af8921656b32262c71da1ab919365c65dfb63a5a9e22185a5943int,
            0xe697d45825b636249f09f40407dca6f174b3d5867b8af212d50d152c699ca101int,
        ),
{
    let p = 0xffffffff00000001000000000000000000000000ffffffffffffffffffffffffint;
    multiple_2();
    let k = 0x1000000nat;
    let k = lemma_leads_double(
        k,
        p,
        0xf8f5dccf4c6a93d7a4a54daafaa3449aa87a8069875405d43725c5dce392d805int,
        0xe58176cf66d63054389d3e336461327351f3da64a52143ba026619516cda02faint,
        0xc714a5ff1e67f35e138db56e27766a8f370df7a9aac6afe2a684adb2f9318a34int,
        -0x171638b443366d5748839ada38fb2125459bd4fae74f931c0e0e3b192cd856d48int,
        0xa118b0f24bc45d9c9b317fe248af581ffd42d88478182a90aca7f0b2ac51d8a6int,
        0x9ad11bbd979653c6dc49381e4917471331ed7be7464c7e2ab5139bad18f36e20int,
        0x698b53fd0f7e1798df7b25ae09464d6a81922408e376967d8621b55d5c87b030int,
        0x445403599a1cffb403d07d9a0b6dccf0b5b09a9015093cc1167c31703e559ddeint,
    );
    let k = lemma_leads_double(
        k,
        p,
        0xa118b0f24bc45d9c9b317fe248af581ffd42d88478182a90aca7f0b2ac51d8a6int,
        0x698b53fd0f7e1798df7b25ae09464d6a81922408e376967d8621b55d5c87b030int,
        0x244464508464873517783cc6e016573c75cc1d40a0821ca2006ccaba14e5ae68int,
        -0x112389e7d4aabe7daccb8baa99aa0bfe2a76bc6c1cfa514854f52f546b672c417int,
        0xfcc8ca2e4e502d2ede9ec29566d715ea7bd24be788828675fa42e8729cf5250eint,
        0x5234e7c1c74eaac670db395c6fed70e57cebb72f8af8def5520896638b74c1aint,
        0x30b57bcceef8bd04f6b9880a8b34da5c9046bc05c03b2120602e0fbf730fd4a2int,
        -0xcfd4240d197ba8d8fa295bce01978bf7ebe517928e3dd76b40887bef71ac0eeint,
    );
    let k = lemma_leads_double(
        k,
        p,
        0xfcc8ca2e4e502d2ede9ec29566d715ea7bd24be788828675fa42e8729cf5250eint,
        0x30b57bcceef8bd04f6b9880a8b34da5c9046bc05c03b2120602e0fbf730fd4a2int,
        0x19942949a63311386dd5eb50ae3bd81d89fda56a29528618285086a145bbc75cint,
        -0x2e317eedea5aff61483d4af8744db5575fe7700bc9f1d7672f23c72de42258a27int,
        0x24bbe05bfa35ddc0ee9a4b43cf2e4e3af349f675d2af3c3d2318aa0489a95e03int,
        0x28e45d028d516a5a583c205897598091e7a34583b7719a6603aa5fd4feb7f0fint,
        0xd49405ee090a22cf17182d4dd2760faad40aa52e375aa14987df45ed8d793c4dint,
        0x15964d2506ca53483de871659f945cedb9bcef2db5f82ce7c073e032cd8afbfbint,
    );
    let k = lemma_leads_double(
        k,
        p,
        0x24bbe05bfa35ddc0ee9a4b43cf2e4e3af349f675d2af3c3d2318aa0489a95e03int,
        0xd49405ee090a22cf17182d4dd2760faad40aa52e375aa14987df45ed8d793c4dint,
        0x89fcec8c449f2a8727481510ba958d286a3ed95b2b77e593d4a8e3bc100d5f1fint,
        0xd55a57acea55fb9eaecf1f08f05464ba3efb40a1bc04401f0e5f04d36b84db72int,
        0x6d28b6bffd4daf313f85eaad8e4d71b91ca631161f99218f984a23176f922dbdint,
        0x4a60af10fa8d0f51a931828394c773fe0d914249649aa0b862751b01d666e402int,
        0xaf39d905141dd2fa40fbe1a61ccb4a1c4c24e9f0b84da29944abff02a0ef3cffint,
        -0x2709cccabbb7f9715144b0d436b06367fe895df309f55034b0fa5a0e68de592eint,
    );
    let k = lemma_leads_double(
        k,
        p,
        0x6d28b6bffd4daf313f85eaad8e4d71b91ca631161f99218f984a23176f922dbdint,
        0xaf39d905141dd2fa40fbe1a61ccb4a1c4c24e9f0b84da29944abff02a0ef3cffint,
        0xf6c406113ca7142ab7578bbd87c1fcac561785320d44621ae23c0bec57db9931int,
        0xc62c6fadd304e266e14ca5cf8adc5f2d8a883c4d496e47342f94def90c77d0faint,
        0xd131e661dd93d815e613947f2d302f2f50ea585cafb752509789404fc4fb240aint,
        0xeddd51c358f81c5c566135fb03fa2f4d6d5570e6b685e0527af1dfa7e09de423int,
        0x34342c8461a95da2e79b4c37f48f4fd47423d4ebcdeacdf422f60e1402501a57int,
        -0x606d6d2d594df43af5a33bfeefd180f277ac12b5c3928c92ed36959a69967eedint,
    );
    let k = lemma_leads_double(
        k,
        p,
        0xd131e661dd93d815e613947f2d302f2f50ea585cafb752509789404fc4fb240aint,
        0x34342c8461a95da2e79b4c37f48f4fd47423d4ebcdeacdf422f60e1402501a57int,
        0x1c544e23cefcf6bdc7e2661841017cf1352b6cdad766837a00109b5b701a002aint,
        -0x1f549bfdac8ff4c76db517f68e91f8e02a8698ff84f909da274aaf68b39e83363int,
        0xafff5af92c807615712e02810be246a2d0434584477fe2e867e5fdd7b8087ddeint,
        0x3228cdb37c38ffb0bc8eacae16a343d2b0a53cfbacd85d931f2c1d27976bf0eint,
        0x659f6ea22cd060c2099a747ee10a2a22aacf175292ddabe7178346acd44eb3a2int,
        0x3ac75f7409f1e3e3723bddf8633421b77fcc07ef2481a743c373e1296578ac1int,
    );
    let k = lemma_leads_double(
        k,
        p,
        0xafff5af92c807615712e02810be246a2d0434584477fe2e867e5fdd7b8087ddeint,
        0x659f6ea22cd060c2099a747ee10a2a22aacf175292ddabe7178346acd44eb3a2int,
        0xe7af93b02913d49f7ff08817eb8b2a9186ce83f590aacc4a439598e38234c827int,
        -0xb30c3862e647040d3409305c3f83e008b1b111a71b0a7508aa2d6fc7773035d3int,
        0x8437a7cab8f3e67c05b8000a73853a82e89dfdb368bc666999fb69a100371f53int,
        0xd1ae54f3fbdc102cfd2d9f90bb61f072afd1b970742226aa28de79fce7f3251eint,
        0x968fd75882812a40735483f43819bb8e10e124fedbfbe259248872d7879cbbabint,
        0x279f39745ad948485869df41efc490bedd923718b05ac8b3fe5e5fc7feed7020int,
    );
    let k = lemma_leads_double(
        k,
        p,
        0x8437a7cab8f3e67c05b8000a73853a82e89dfdb368bc666999fb69a100371f53int,
        0x968fd75882812a40735483f43819bb8e10e124fedbfbe259248872d7879cbbabint,
        0xe353b7ead6b8630cc720fc9e590a4b3bfde6404ec154ad7d5f0e3fc795fe64a8int,
        0x3e893e1af9533182d80ed46f1d930a481b2fcdc0b4429deaa04200a586d5b648int,
        0x7fe36b40af22af8921656b32262c71da1ab919365c65dfb63a5a9e22185a5943int,
        0xc9dd938c0911652cfd6b937aac04a9990403076b561a4283fd04263ca3d4e9a9int,
        0xe697d45825b636249f09f40407dca6f174b3d5867b8af212d50d152c699ca101int,
        0x3d81c1a3b355aada23c8f009119e4d7019ff8fdce8b59474d78f765b719222cint,
    );
}

/// A multiple of the generator, step by step.
proof fn multiple_4()
    ensures
        leads(
            0x7fffffff80nat,
            0x45aacac4387db567315c42300d6461b1922b1d7b04d1ebca6998b46442e508d2int,
            0xf77a05dfe6f590829ad72adef8124d06b6b456871a9e6d77bbbd140a55062a47int,
        ),
{
    let p = 0xffffffff00000001000000000000000000000000ffffffffffffffffffffffffint;
    multiple_3();
    let k = 0x100000000nat;
    let k = lemma_leads_previous(
        k,
        p,
        0x7fe36b40af22af8921656b32262c71da1ab919365c65dfb63a5a9e22185a5943int,
        0xe697d45825b636249f09f40407dca6f174b3d5867b8af212d50d152c699ca101int,
        0x6b17d1f2e12c4247f8bce6e563a440f277037d812deb33a0f4a13945d898c296int,
        0xb01cbd1c01e58065711814b583f061e9d431cca994cea1313449bf97c840ae0aint,
        0x69f17b1d38890b71161e936f785871f30e6e559941dffb77232c79d5399a6f6int,
        -0x89b1f8c76a4828abc6895cbb79baab146256bacd5e9f83ab43d6f1b13bfab9int,
        0x618466bcb739585c20c44b7fc962d8671d94867054859361a18293ffe4a720e1int,
        0x2bd7fac72c71efdadc3230d5d62de0f6e48541474065a3f9102f2f52aa4856int,
        0x34587f80988db9bd798cb5da178ec512db9aec2fe35f85e0678b4e91f7c873b4int,
        0xc919ee88c20ac97011d66a08c3dec4f7908db9e8513dd07456b5dc040b5a89int,
    );
    let k = lemma_leads_double(
        k,
        p,
        0x618466bcb739585c20c44b7fc962d8671d94867054859361a18293ffe4a720e1int,
        0x34587f80988db9bd798cb5da178ec512db9aec2fe35f85e0678b4e91f7c873b4int,
        0xe7289190fbb5a7d7d62b51d40f3571670d41439c83a980a6ebf0c77129c5ea30int,
        -0x10e881b5f68e1e96507d2a8e2c446efddf370fb342647cdc03e1ca7104636240int,
        0x6f24db5a219067f6c7ed039151a8d5ac91ed91d9be5272b747b4e738b39a52daint,
        0xd0ba3d2247104a0d5a4833975f967fce966769b1aae11337b719b2d2d8cccb9cint,
        0x1777f41a8de3f291211ffde201744ddff0d3cb972b5cbd10c70e7a8e2aa70e31int,
        -0xc4df20be98fde39eedbc486b19e2ec6c601dc0168fb8fc0b266dcff6eac856bint,
    );
    let k = lemma_leads_double(
        k,
        p,
        0x6f24db5a219067f6c7ed039151a8d5ac91ed91d9be5272b747b4e738b39a52daint,
        0x1777f41a8de3f291211ffde201744ddff0d3cb972b5cbd10c70e7a8e2aa70e31int,
        0xc0c0f69007425dc498074987e7b1b2cc32e5edf753f84c8d1e31e83a7f4c1fefint,
        -0x6d6ba349428e8056da8bcf9e7a4a0aaabe888264821098b704cf0c73352b3895int,
        0x6184d2a091f07c3846f28108a5d4111a113ef877df1b2e648b350e9fdcb3153fint,
        0x9122034b6189927a126a8c171dd231bf7f33a86aa6fa57d4f57496732803f9d2int,
        0xa9404e45027fa0c188aa763b8ebbb9de825ae68b25b5b6049ead0923d93f3e41int,
        0xa424bb133f015523c55f8e70a6827a3e1bbb039049f7f5f9a45d9a7328a03bdint,
    );
    let k = lemma_leads_double(
        k,
        p,
        0x6184d2a091f07c3846f28108a5d4111a113ef877df1b2e648b350e9fdcb3153fint,
        0xa9404e45027fa0c188aa763b8ebbb9de825ae68b25b5b6049ead0923d93f3e41int,
        0xe2266a64fc9e96910bfcc391499f69e6e3862cdee724bf5f53e52619a78d636bint,
        0xbb969061e52387cdbb75767ecacd4a09be8fc9360e2954da07a0109318f9e02aint,
        0x8354e03a605b57989d8254e9094e3040e6aca47e5fcfeef4513c003de9f0bf44int,
        0xc7c7d99ed802a3948652fc36b60f7ead0c9b1ed2e66dc698076d28cb5edcfb09int,
        0xf38de2e2640576d5a32995c9a49afecba4dff1093dd6b00b3ae64e2f51403216int,
        -0x1ddebef1673277b4a322dcd090e9623fbfb49463fa6933485ba9af218c399092int,
    );
    let k = lemma_leads_double(
        k,
        p,
        0x8354e03a605b57989d8254e9094e3040e6aca47e5fcfeef4513c003de9f0bf44int,
        0xf38de2e2640576d5a32995c9a49afecba4dff1093dd6b00b3ae64e2f51403216int,
        0xf7be988964ec4116f418581f98955a9ca415e34883c7a464aefb4b965b9e49f7int,
        0x10d4687cda1aed26db20896aaaffff1d4b1c5bcba36e3801bec446ea4059a6bb9int,
        0x803c9eaba8fa71eb4a4fa96536e4f714bdceff15c4f0f6b24ffbc30cf2458edaint,
        0xefc15840d7567e208aa0cd5fa6e6948cf0043021a66c4cb3e67a719fc9e44111int,
        0xa3f72acb06bb7da031f43d0b98ca5a3b17f600bf3077db32f3f05f21c910018bint,
        0x2feb5196df973a166ff6478c23bacc1a94e3f1e9e006164b2ba8a78c3ea435bint,
    );
    let k = lemma_leads_double(
        k,
        p,
        0x803c9eaba8fa71eb4a4fa96536e4f714bdceff15c4f0f6b24ffbc30cf2458edaint,
        0xa3f72acb06bb7da031f43d0b98ca5a3b17f600bf3077db32f3f05f21c910018bint,
        0x4eb34c79827117c2632524e9f4d02fecf1eede4cdbedd17bc9b364e5ee04dd99int,
        -0x5be5bb63a71727a1f38ac484be9079e8e53a5c08e0dad1fe4df831550c74213dint,
        0xf5bfdd6e28096dbada5a90d36c5f333ddfcbae3ff9f95a88fc428b92495acaceint,
        0x1831c02e2c7373ef79fdeae8ad6f3f88effc82c074fd95a7f72309d2054c6311int,
        0x7403dc2554fcff16d40a046e05a3507ac66684a300481a48a36736b59fe7a734int,
        -0x24204aff0660aa8e3117960b35938ab7158c0347a93c85848d2e6af46ec5de6dint,
    );
    let k = lemma_leads_double(
        k,
        p,
        0xf5bfdd6e28096dbada5a90d36c5f333ddfcbae3ff9f95a88fc428b92495acaceint,
        0x7403dc2554fcff16d40a046e05a3507ac66684a300481a48a36736b59fe7a734int,
        0x53b963e0e2a551f86b7527b4da6ce25b70cc5b23592b9b7b4a6768e1eb9eab20int,
        -0x277d7e00a4befb3ceecf215fae9ed96543ff1dcd9ee9b8be430775cdd2ef40bb7int,
        0xf9bfbf82de9d176ca7c6bdf398a56fcbbabd61f41a4b6688bceb6a4ba82b72c8int,
        0x1b61bd05705837f62b0da7596fab9d29318caefb96d13f6d90e102abccfd4464int,
        0xc1adae302045783f941ef0dbe93edb63c1f6b7ff42250dbfdcf2d2f99cbcae9dint,
        -0x14edbc69156fc068b9546f352316b313b33121191c1fc900a1b0b1b5ec6acefint,
    );
    let k = lemma_leads_double(
        k,
        p,
        0xf9bfbf82de9d176ca7c6bdf398a56fcbbabd61f41a4b6688bceb6a4ba82b72c8int,
        0xc1adae302045783f941ef0dbe93edb63c1f6b7ff42250dbfdcf2d2f99cbcae9dint,
        0xb8f8d77f98b07b91a739fe888ef94517d1e11ec5ae46114d5d9fcc91b1494e2fint,
        -0x1c311858c084d22adfc5670e7d42b1e88992b01921e305822895c18726f4594e9int,
        0x45aacac4387db567315c42300d6461b1922b1d7b04d1ebca6998b46442e508d2int,
        0x85a6a7aa2dc3c14bbc6fc5b1745b5de31e3948dd95f771417aa19ca2e68d41c1int,
        0xf77a05dfe6f590829ad72adef8124d06b6b456871a9e6d77bbbd140a55062a47int,
        0x821e1bcdfd8fb7671f8a9bd2459091ffbdffee6a5a62e58b95f663ff986670baint,
    );
}

/// A multiple of the generator, step by step.
proof fn multiple_5()
    ensures
        leads(
            0x7fffffff8000nat,
            0xcc5cf8384395586507e793938f79a3025602ef45fbf8a89e0ff6c5db6a782a1cint,
            0xfb96d696ea57e0306d356bf964dd83943e50619e19dc791971d0e9a6a7840a5dint,
        ),
{
    let p = 0xffffffff00000001000000000000000000000000ffffffffffffffffffffffffint;
    multiple_4();
    let k = 0x7fffffff80nat;
    let k = lemma_leads_double(
        k,
        p,
        0x45aacac4387db567315c42300d6461b1922b1d7b04d1ebca6998b46442e508d2int,
        0xf77a05dfe6f590829ad72adef8124d06b6b456871a9e6d77bbbd140a55062a47int,
        0x856480bf6645295b7cc166fcbf9ccb4213ca02b689e6a51515b002a54653b436int,
        0xc906909cfea2a9361b5da2d0a2fd65757b3b6920665bb8143b3233fe67edb6d5int,
        0xe586d59f96d1c3239f908e358bb827e5776d721ac17837813d0ca0436cdfba43int,
        0x4581953bfc0d4d9c03108764e4901137db209e49fd3973c45ff5018410c9d083int,
        0x2c221df09914a1101705f1adfb69fa1741efa2214a16d935b2444b2c2a59aae9int,
        -0x534c13fe13753d411e2c1a8cadf3cdee51bf4eefc5005da8b0358d90f35848faint,
    );
    let k = lemma_leads_double(
        k,
        p,
        0xe586d59f96d1c3239f908e358bb827e5776d721ac17837813d0ca0436cdfba43int,
        0x2c221df09914a1101705f1adfb69fa1741efa2214a16d935b2444b2c2a59aae9int,
        0xe5bd602b7c75efe5dd4bfee34f6d5f15c12502dc3d6a454e8416bf7262efd14dint,
        -0x21a292e8469ac62deb618100be9a5b7b4b9ece2bd4490c94870189e41b550f992int,
        0x25d493915d5523796695553f3b555771ba3c2d7991b127cf20c2d84ba10c6714int,
        0xce2c5a25bf2dc435e86196365eefc9873e2f28f3110a56181b7c4d570de70a71int,
        0xdf23c7cbddac695731da10cc2089659d67726230ea177580789562cdcfc3c66cint,
        0xac0843b592de45971078411190bb26c5a5ad5a282dab19d20ed3eef97dc30d32int,
    );
    let k = lemma_leads_double(
        k,
        p,
        0x25d493915d5523796695553f3b555771ba3c2d7991b127cf20c2d84ba10c6714int,
        0xdf23c7cbddac695731da10cc2089659d67726230ea177580789562cdcfc3c66cint,
        0x901938d044075d035fec1e3dcc28585a76a2c4f101473d40d33faf2d07a666efint,
        0xea6ecf47b95f66fcc8a2bcb4de6ac7604369d02fc5e2f81bc5503159c468bf05int,
        0xcb57c89a7f748b1058850cad0f56abdc64ba3cc261cd57f30646b2d75172ea99int,
        0x511c6266c2edbbac3f20407c19ce188bb750957783b7a01b72b4eb9dda3465a0int,
        0x6fa11fa312fb916fd9dc88dc5bf95567f413b9026287fd49d78e0c515dbae569int,
        -0x5d2a1c610870cf69026aea4106cc6a76643e666b10217dc145a0a6bb5f278d00int,
    );
    let k = lemma_leads_double(
        k,
        p,
        0xcb57c89a7f748b1058850cad0f56abdc64ba3cc261cd57f30646b2d75172ea99int,
        0x6fa11fa312fb916fd9dc88dc5bf95567f413b9026287fd49d78e0c515dbae569int,
        0x225568746c8026c61a929d9ee21cc8b663b8b70852d3eab403172b36db27773aint,
        -0x1c69bba3ff5f31a28dd84d987a10f69ae3766683feb182ca3293764a7fa356344int,
        0xdc46ba3ba5930172cb8d86b64358c623f82bf466c96d0bed7d46dd2dbdbed6c8int,
        0x49acc3d795bb0be74fdf5b90289b1e8e8549acd71ac43004f17ee519971b2d6int,
        0x36eb8f0fe74ffacb3756823dc92193fb371324ae5a9fb7b638c04dfbff73428cint,
        -0x2456256697352a7ce219464a757c01fc9282234a6dab9a32641b83f9eab7c65int,
    );
    let k = lemma_leads_double(
        k,
        p,
        0xdc46ba3ba5930172cb8d86b64358c623f82bf466c96d0bed7d46dd2dbdbed6c8int,
        0x36eb8f0fe74ffacb3756823dc92193fb371324ae5a9fb7b638c04dfbff73428cint,
        0x730e7f0e730508b34af19c004afc304711f461a3ad85aa214506bbb2d38216bcint,
        -0x2073f1014daaa836efdb571330d785acf5b2cabe000a28fa3a721e054dfb0d8e3int,
        0x9ff074615589ac64025a090247b7ecdb5af12a8cbc0d68280d93583a3ca4905cint,
        0x33b606f953b07846efc813c547556ebb3de2ed898dcf2b45c2731990b72d63dcint,
        0x390559a84227ab1dbec695c194b2a8b36706be18032012d7588cde558080d31cint,
        0x1b1e2c0b337dce85c8a90f1aebf9e266a031da3e3868a6152cbc89eba7c31658int,
    );
    let k = lemma_leads_double(
        k,
        p,
        0x9ff074615589ac64025a090247b7ecdb5af12a8cbc0d68280d93583a3ca4905cint,
        0x390559a84227ab1dbec695c194b2a8b36706be18032012d7588cde558080d31cint,
        0x61bcdb4b66643b59a748a3260de0d150ba66d53835998a7618465429d353b8bcint,
        -0x1003b87c50bd03c67804f09794ba1938cb4cde69434fc7ef6a9627f61c2ff6df3int,
        0xdd75090da916a7714ecbf81dceedcb4f8169f117a9914a1ab3aaa90bbd0cf019int,
        0x2550a9821b811917b7dd5f303b92c038e932aca26a705f2a3781af60ff1f46c1int,
        0x380a0e0fdcc7d2c1a44902d9b9f5eb12a3f5dc48693e7ab288291c0ea7f1f4cbint,
        -0x177c9e651b54484d56ce0e36d106b291ae89f48d518f7365cd821571b4d0114dint,
    );
    let k = lemma_leads_double(
        k,
        p,
        0xdd75090da916a7714ecbf81dceedcb4f8169f117a9914a1ab3aaa90bbd0cf019int,
        0x380a0e0fdcc7d2c1a44902d9b9f5eb12a3f5dc48693e7ab288291c0ea7f1f4cbint,
        0xc9651e62d6774d6d434978a729e20c44dbdf244c051785d459e9d397faf72d77int,
        -0x1e68dc618dab32817e4c451a767f104d92ed4dfb1b166c07962140f3126264b6aint,
        0x5da7422f1663c6d57e2d1582920e4644d7fb1f5597d27d56d00eb7fb982f582bint,
        0x9e6ff1a8d0cfd3cdbb68ea0d1a4af4d070b12c8914e788f93c348a3be2942b0cint,
        0xc6dc13fd9f8bac18f672b8fd5a1ed7fbb54eddbf6c2d22f158fe9c312858a10bint,
        0x648b0c8010af295eb0544a5530d664ef307ff1e86d748d31e72b13b5b6f22034int,
    );
    let k = lemma_leads_double(
        k,
        p,
        0x5da7422f1663c6d57e2d1582920e4644d7fb1f5597d27d56d00eb7fb982f582bint,
        0xc6dc13fd9f8bac18f672b8fd5a1ed7fbb54eddbf6c2d22f158fe9c312858a10bint,
        0xd5c0e76343a81b2fccebfe410ee5f059d6813035f76b381d8a4c32004e356535int,
        0xe54d10c56e3249c1bcd5632ef4f6d583077f5b1f1ea6834a7925664da423691aint,
        0xcc5cf8384395586507e793938f79a3025602ef45fbf8a89e0ff6c5db6a782a1cint,
        0xb27a9267c71a16642e4a527b25d4e123e85b46aa28ab65eb812eed033ee1fd79int,
        0xfb96d696ea57e0306d356bf964dd83943e50619e19dc791971d0e9a6a7840a5dint,
        -0x5c709ccf6ab6af128f1139b4d426c2edb413f6dde4587c8fe4b681d00756c8b3int,
    );
}

/// A multiple of the generator, step by step.
proof fn multiple_6()
    ensures
        leads(
            0x7fffffff800000nat,
            0x24688c9b2b59562d73bafa55e3694d2d98741c02069a5bff70e14afb6a34f44cint,
            0xd669974b3228c4a8a923dd131423654b3149fde6979481cbababd6e5e46fb164int,
        ),
{
    let p = 0xffffffff00000001000000000000000000000000ffffffffffffffffffffffffint;
    multiple_5();
    let k = 0x7fffffff8000nat;
    let k = lemma_leads_double(
        k,
        p,
        0xcc5cf8384395586507e793938f79a3025602ef45fbf8a89e0ff6c5db6a782a1cint,
        0xfb96d696ea57e0306d356bf964dd83943e50619e19dc791971d0e9a6a7840a5dint,
        0x33ca08f7f6caf3b2bc2dd0597e53765ce9a3a459a2d6ec8c14fd62b9829c8036int,
        -0x183a1b2ecfb03802ef347614d481bc91f7c2916ef3b56acd3b6230e23b7e1c60fint,
        0xf248d9b1b84ac2366fee7d47fce9f31c4533a9698bee5ee13fae5147b6139223int,
        0xa7a1f04fe70e40199ca1a380e0d4a6f4006078524e0b941a9e1e50f30fddaf7int,
        0x73a4fbb68dcaeace798186ee0008cf52f074446c745a91109967d36b922c3028int,
        -0x7abeb5f3df33952b479e63b366ce101637cecfe09f73869adeadbb22d405401int,
    );
    let k = lemma_leads_double(
        k,
        p,
        0xf248d9b1b84ac2366fee7d47fce9f31c4533a9698bee5ee13fae5147b6139223int,
        0x73a4fbb68dcaeace798186ee0008cf52f074446c745a91109967d36b922c3028int,
        0xe3d88474bf049aa8c92e117118d8ae2192be22c3afc88bbb6d45984b246b29a7int,
        -0x1e20f3c754968b697c597d7ca753923fd9b62cdeed43f4cd63b9f80fe04a9d1d8int,
        0x3f069f0caf6d1b8a003183e31d6a7639fc9662fb33f78337c98fc3583bcdc78bint,
        0xcac9b2079f16ce4d901a643cd492c14e05760df1e0fbd87601775d7ad79400e0int,
        0xf0d634c2804a56d4192802decaf900685a573f23359cd35a7037e22ba20ab87eint,
        0x9f8b56a257a8aae1a2df25335ba75f6a5d7a8d58bdbe535c80f73d9835b5677eint,
    );
    let k = lemma_leads_double(
        k,
        p,
        0x3f069f0caf6d1b8a003183e31d6a7639fc9662fb33f78337c98fc3583bcdc78bint,
        0xf0d634c2804a56d4192802decaf900685a573f23359cd35a7037e22ba20ab87eint,
        0x48e767de0f22738d95a0cde900e2811f059cc9b0b4d8f7c6662c971f6dd8540eint,
        0x5a9f1c52e6fc56c38c09c0b4f3b8a96184576f95658403ae1a770e06639752a0int,
        0x2b22713cb4d4d6f0729f0f208f747d99f65813faf13d28ced0db001f0bad4171int,
        0x14c2fb999a2a1d91acb70423236fa06060315c6c1d2ae8cd5a7bb909a40f9fc3int,
        0x60442684cdb5ae6002e09997cc26f8bc3267c71a48db3d6c479ac9fae4e701e2int,
        0x5aa27d9ea4b8eb154d6c6983aa7429b1739f2049b9f755850a1338b0139dcf4int,
    );
    let k = lemma_leads_double(
        k,
        p,
        0x2b22713cb4d4d6f0729f0f208f747d99f65813faf13d28ced0db001f0bad4171int,
        0x60442684cdb5ae6002e09997cc26f8bc3267c71a48db3d6c479ac9fae4e701e2int,
        0x40ce2d624ccbdda2181d7203eceba6f86c74ffecf1099f60709afd4e366ad7fcint,
        0x1aef5f0c621cb1eeb64de5a9a650e6e44459208ef7d26df014bea67e19406ab0int,
        0x6a2ca24329a14d2586d4d84afbbc2e427cd19f30e5da079043a0ff685627a21bint,
        0x1067bcbe490cf866849d1e93fe3cefe12a124f8c6bd4af3126920a608a98e4edint,
        0x715b966cbb3fbc9e8945f98206c054a762d417938414a26af21974727d2c9926int,
        -0xff551a21fc88ced9c24a4b4bc03814f51fea086f70db3ea2ed9cb04a3e277a0int,
    );
    let k = lemma_leads_double(
        k,
        p,
        0x6a2ca24329a14d2586d4d84afbbc2e427cd19f30e5da079043a0ff685627a21bint,
        0x715b966cbb3fbc9e8945f98206c054a762d417938414a26af21974727d2c9926int,
        0x7ca5a95dbd0f238188c92bc10fe3120ca5cdc8c94f5543f619e7b4a285fac63int,
        -0x7d34c37b6f8d5a9232c15e7e71b33721faa5191fabe900d1366f58b77bdcf6dcint,
        0xace880fd319db60e08e8312362822b4aab68bc33f988ea72759ded54b65286c3int,
        0x3cb0e746ceba2d20b906a998c8916109452802120479d5df5717490d129cb0int,
        0xa393c7a518957d2cd62437d88a15ced5e93c5ec758dd9206fc340760108fa157int,
        -0x207e2f1f3fd4f62cbcba52348584eb2f3ebc5ec681da97863567cf255b4788bint,
    );
    let k = lemma_leads_double(
        k,
        p,
        0xace880fd319db60e08e8312362822b4aab68bc33f988ea72759ded54b65286c3int,
        0xa393c7a518957d2cd62437d88a15ced5e93c5ec758dd9206fc340760108fa157int,
        0x1695cb9add979f9b44bba53cddc3af6ec9a9ada1fcecce7cc21c53ebfe9bf13fint,
        -0x1417eecf30737be5c16c4b52b5239b3b30d7d8f510ba68a32dbe961b6f83b0d3aint,
        0x17d021e5a0822845da7ff25f0cc23e3ecfb6e2b9adad4bf6fc0f32bc7663df1int,
        0x1fe16a5444911b18e34a711240e007568c36e1cf56aa4358b3f38742a699df6int,
        0x8889b06b8f2bc13f3816c9f400ca112eec03be1b188b1fab43488aeaa760c363int,
        0xf1f8acdfe003a59e0278219e470d235b26706295fcba955a94871350816c70cint,
    );
    let k = lemma_leads_double(
        k,
        p,
        0x17d021e5a0822845da7ff25f0cc23e3ecfb6e2b9adad4bf6fc0f32bc7663df1int,
        0x8889b06b8f2bc13f3816c9f400ca112eec03be1b188b1fab43488aeaa760c363int,
        0xb52ef301be713cd3721fb2eb26e9651c62dbd5611dbf05a2a082290ba0205c5bint,
        0xc13e22fd9668c94512f99f08bcb28218f751c6ad62d826b433809e392720263eint,
        0xd53d5a852cb411a97e99b8cb5bb9578b51d8c2e6b1711a9d23700327fd38e388int,
        0x803b6c3d32d44c7f91fee356e122071c5d4269ae4e4084cef2005c2493f3d711int,
        0x1b20a99853937f9873930c491b525c60d2c0203c21cbac126967833a34ebb804int,
        -0x95ddd412307b9d3f2aa63971a9bd5b4bbf61d0871c21048765ebf18c3b7063ecint,
    );
    let k = lemma_leads_double(
        k,
        p,
        0xd53d5a852cb411a97e99b8cb5bb9578b51d8c2e6b1711a9d23700327fd38e388int,
        0x1b20a99853937f9873930c491b525c60d2c0203c21cbac126967833a34ebb804int,
        0x477a8d7b28feffaee439432c1cb34e620d2b28f77d7a02dd8f8b7b25da055f0aint,
        -0x205b75ed36cdd74c3d4bdba0b1ef87d33178048a460e6986332c5fe29a3f5ef93int,
        0x24688c9b2b59562d73bafa55e3694d2d98741c02069a5bff70e14afb6a34f44cint,
        0x13f535258c46a06d7edbbc7bd94db934bd7a09374d482ad96e57166d82fa4ef8int,
        0xd669974b3228c4a8a923dd131423654b3149fde6979481cbababd6e5e46fb164int,
        0x315fac40813eb19855a407cb3476890a9f90d230d0d1232d09fffd5b2140cd10int,
    );
}

/// A multiple of the generator, step by step.
proof fn multiple_7()
    ensures
        leads(
            0x7fffffff80000000nat,
            0x59d10e27a2e1d2e0f244547873a77c6a9698147cfe238b843f329338c29aebdaint,
            0xfe9421b3711ca96e839fde225fd3fb52195f60e1434087b704602925f18c5f09int,
        ),
{
    let p = 0xffffffff00000001000000000000000000000000ffffffffffffffffffffffffint;
    multiple_6();
    let k = 0x7fffffff800000nat;
    let k = lemma_leads_double(
        k,
        p,
        0x24688c9b2b59562d73bafa55e3694d2d98741c02069a5bff70e14afb6a34f44cint,
        0xd669974b3228c4a8a923dd131423654b3149fde6979481cbababd6e5e46fb164int,
        0x3df23d02be64203da86b3586f55929b44d3b721a7d42d1f74c2790f568dedb19int,
        0x583b6134947f014a05cb42e9c4cb784d73b3bddd4b71863494ce5de2a7412625int,
        0x11007f19319af1a6d1ce80397deeb0e8563689ee692ba5a0315c20927bcf0185int,
        0xefd564ac57351b84bd227df7ddc87ccefe576afa0937a26dd7f64aa455921acint,
        0xe817e244a8c06ac138d4c0b10e6810088a0267b0dcf51e6766dcf514fb4b3291int,
        0x4b22834c28980c797835e6edbb9ed125a115ec035603fb7faf5744e0083f186int,
    );
    let k = lemma_leads_double(
        k,
        p,
        0x11007f19319af1a6d1ce80397deeb0e8563689ee692ba5a0315c20927bcf0185int,
        0xe817e244a8c06ac138d4c0b10e6810088a0267b0dcf51e6766dcf514fb4b3291int,
        0xc4edab784cc66e9dc3ddc0a1bb35098abbebb6da1bd0379f4f35495b1810da1bint,
        0x161b052f8ba077f01a8ec3961ea57f979b3c8ad2c198efbe513cf1547332d4eb2int,
        0x6fa565a378dde0df22f612f3779f8db8ff70ccae2e9ba8a15647f0ae541844efint,
        0x977ccb37bca4bb1ab2050a801edd68e04aab746e12d4fa9d053092a03e844920int,
        0x7ae276bec1d2bec9d4eb64f0b20da6fa810c27b136c0c00d0f0465141c8a47f0int,
        -0x48ce1e90350e15fa29658762ad35b4399a5620a758987a5ac6cd69248e682551int,
    );
    let k = lemma_leads_double(
        k,
        p,
        0x6fa565a378dde0df22f612f3779f8db8ff70ccae2e9ba8a15647f0ae541844efint,
        0x7ae276bec1d2bec9d4eb64f0b20da6fa810c27b136c0c00d0f0465141c8a47f0int,
        0x88fd5e6ed410c082c3ce11a91fb70b3f67e4a7765d05e18d7f947b38ca97f419int,
        -0xe8eae8dc5d8338f94f67d09da8affac521b07d615f1e562ba1ec4b343240780int,
        0x6db2fc5f840c467555dfc8257eacfed24cb8dab28afe143ac02ebf90e61dbba0int,
        0x494e2f19d484b8783929b98dce19bcf9bb6cdfb6e0c7ecc91a77a8943c109b0dint,
        0xf7a91123a9a8b15e300d42a897c5793991e38ff29bd9757303cb4a2799aed283int,
        0x10ab535fdb011459d729a13edbea6c2008fdc4315ecb60e34f34921da4965bcint,
    );
    let k = lemma_leads_double(
        k,
        p,
        0x6db2fc5f840c467555dfc8257eacfed24cb8dab28afe143ac02ebf90e61dbba0int,
        0xf7a91123a9a8b15e300d42a897c5793991e38ff29bd9757303cb4a2799aed283int,
        0xf20a57ee70df07d6ce91f0bd0a46160e3a6c07e71c958c66141e21069158d350int,
        0x14749ef988104e4693150057622116ae20f7139a803c69a670b86d6e346f1e81dint,
        0xc3376dd235c533ecccf4dde080377e969556216f981cb9db824041c9c94d7468int,
        0xe4d78eaaaf11f9b62d58f6919aad70f39a613693708e5b16f2b37af9001bf2a8int,
        0xa88754c4e3cd3d42fa0c78f4614d41b8bd7424db314f6710b6ec89cb7de14d0fint,
        -0x50daa7cad4ba4f252d389fb275082041098d6c834c7b842e73de5a44c77949eeint,
    );
    let k = lemma_leads_double(
        k,
        p,
        0xc3376dd235c533ecccf4dde080377e969556216f981cb9db824041c9c94d7468int,
        0xa88754c4e3cd3d42fa0c78f4614d41b8bd7424db314f6710b6ec89cb7de14d0fint,
        0xf1fbc80729ab01a5ccb119d4f3c345cb8f969116d59a28f5bc535098ecc8e08cint,
        -0x7ffe29948656e3aabdc2c0eac6b638d01a798af46086cbda243cd028623b49abint,
        0x682c1373b018b924f6ec5ee81fd0d65ded7abe66e21640e973f132b2253ee808int,
        0xe4bc06403b86e5fd3e051550d628e607c620a5f4fae5a541a7c49463f8248448int,
        0x67eecad0de63ed1d78e66b6ea15d5fc4253683955d973189a31bc585d170e061int,
        0x560f3b58574e9eb36e53474363edbd01559596d2a8d4070bcc407110b18968f0int,
    );
    let k = lemma_leads_double(
        k,
        p,
        0x682c1373b018b924f6ec5ee81fd0d65ded7abe66e21640e973f132b2253ee808int,
        0x67eecad0de63ed1d78e66b6ea15d5fc4253683955d973189a31bc585d170e061int,
        0xb6f56f88616f73e59cd055fedf26a4e7e9b7d3805a7210f8280ce5f968813bdbint,
        0x15634bd3052021d9afca5b4879ab893b4b2822879128b126f618aab5423ce4c7int,
        0x8f4960d0fad5121e7ffffe005df1761de7f8e1c2cdf965478173dbe628e75af2int,
        0x82c1e5e518ee6b2938a4ce9c1d32d0dfb701453b56983804b1a8c16522b07da9int,
        0x7c853b801b2e85abe2a219299d17921498c82bfbec9ecd3ea2d6d5a066064c18int,
        -0x1bf45516045e7149f9034895c034be0ee6096f63712fc8a978fa4a57dd089759int,
    );
    let k = lemma_leads_double(
        k,
        p,
        0x8f4960d0fad5121e7ffffe005df1761de7f8e1c2cdf965478173dbe628e75af2int,
        0x7c853b801b2e85abe2a219299d17921498c82bfbec9ecd3ea2d6d5a066064c18int,
        0x95293b8c9d1b7cbee1c6a40dddbfa08124cd4c445226188841a5ce723091ed70int,
        -0x5f7df9b778e84f90e69d6dcc717597d360fe68da3988551ed0aa81417e75deb7int,
        0xb780013f82cafd3fb064c465c74e23abd489f4c630168820d51976a7b9c1a67fint,
        0x56e905f626af75a0d9b72311927657354a589817d4df5be6c0526a7b3677cb63int,
        0x8483796ed584235343c4095575ce7fd0fa870b4f17da440ff188eb514617cbdaint,
        -0x176e457acbcb353edc478ebc22d80a80859b8b2365f13dcfe73942aba192515eint,
    );
    let k = lemma_leads_double(
        k,
        p,
        0xb780013f82cafd3fb064c465c74e23abd489f4c630168820d51976a7b9c1a67fint,
        0x8483796ed584235343c4095575ce7fd0fa870b4f17da440ff188eb514617cbdaint,
        0x5fc30199770d63f9306b8eb5b70c590e7a78844d7f32b7599bffe25242913afcint,
        -0x127754f4c24518960a9b0a9933ec946976a479683c64321a248a9ff080ad74430int,
        0x59d10e27a2e1d2e0f244547873a77c6a9698147cfe238b843f329338c29aebdaint,
        0x23d24fbb79fc2d4235e05b2eb39fcd13a78ec5c61bff7dd61cdf924a670f10c8int,
        0xfe9421b3711ca96e839fde225fd3fb52195f60e1434087b704602925f18c5f09int,
        0x230b490f0265f90053c8d6d42ce0d667487cd24f3051f0957cffa354e5c60e77int,
    );
}

/// A multiple of the generator, step by step.
proof fn multiple_8()
    ensures
        leads(
            0x3fffffffc000000040nat,
            0x8c45ac867f57bffc96f11f7bb74157395323716d8c5a19f1c0adf7ed09ea872fint,
            0x6d517522ed63ef7bd90d42566aed01080cb5bcfc27178ffcbc442171b8241203int,
        ),
{
    let p = 0xffffffff00000001000000000000000000000000ffffffffffffffffffffffffint;
    multiple_7();
    let k = 0x7fffffff80000000nat;
    let k = lemma_leads_double(
        k,
        p,
        0x59d10e27a2e1d2e0f244547873a77c6a9698147cfe238b843f329338c29aebdaint,
        0xfe9421b3711ca96e839fde225fd3fb52195f60e1434087b704602925f18c5f09int,
        0xe6f5915845524817c9b060c18d8b717cac8fca080e26cbcd288bf75a7faab605int,
        0x16cd1817cb52774d1f4e78dda715084bee504fa884785d33743024fc8de255e8fint,
        0xb9cdba7bfd6dadb74e360dbd5aa41547daa0afb084de8807cd635be8e4398ffcint,
        0xd05e2cbaf267d2b9cefc97976685b5e981fb961ee46a6e71a36a0e6733604b97int,
        0x6422e5623a2035b7f4c596afa4bde2261698be60c7b910bdeee0554b1882c80int,
        -0x5699162443225d4b348882d40cba7acc5789ba36af48e341b0d425740f8e13cdint,
    );
    let k = lemma_leads_next(
        k,
        p,
        0xb9cdba7bfd6dadb74e360dbd5aa41547daa0afb084de8807cd635be8e4398ffcint,
        0x6422e5623a2035b7f4c596afa4bde2261698be60c7b910bdeee0554b1882c80int,
        0x6b17d1f2e12c4247f8bce6e563a440f277037d812deb33a0f4a13945d898c296int,
        0x4fe342e2fe1a7f9b8ee7eb4a7c0f9e162bce33576b315ececbb6406837bf51f5int,
        0x6ff87c4d20eb575c61afe131e9ca41e649c11844767ade32265ee0d691fca701int,
        -0x226d4644adf97710e8020bf3f4050076531579119df21dca282ecbce91c28325int,
        0xc9acd172e6249ee77a77056186e766dd675e5d3607e3ba301b99df4bda696b19int,
        0x30f96cfc255019d8227a314f566983eefc6cbbd8d300130362f950463e516faaint,
        0x763c9ef039ab253bfa9d77682d7bbe4e6ca408983722752f8ce4c56eb262ccdeint,
        -0x6f122c82c4de1a5c7d8c12c2013222333ce31893f12c09be50526cb50694085int,
    );
    let k = lemma_leads_double(
        k,
        p,
        0xc9acd172e6249ee77a77056186e766dd675e5d3607e3ba301b99df4bda696b19int,
        0x763c9ef039ab253bfa9d77682d7bbe4e6ca408983722752f8ce4c56eb262ccdeint,
        0xc8c05126f210e5ac3b2e06f9445780c7483f1f68c8066e1cdade66342d681731int,
        -0x123322276ac0981cabc601ebbdbcad442c04437faf38cdfdf08653989b91297acint,
        0x1915d8e9660623fe1cdedf38b1360077fab817610ab76ae9a025ade377061998int,
        0x9d6d0f474bcc3a97c06efb2c3addccfcc015b592c8de09b8bd8b321917ef1869int,
        0xb6e3175848d66c5a063afa8da224d0960f9daf9f8aa6a35d38ab1b51d6f3f595int,
        0x8a7a9b60ffb94704fd172a1f0221d1a003e50ba75f7e46a1fd7d40f6cd9991c2int,
    );
    let k = lemma_leads_double(
        k,
        p,
        0x1915d8e9660623fe1cdedf38b1360077fab817610ab76ae9a025ade377061998int,
        0xb6e3175848d66c5a063afa8da224d0960f9daf9f8aa6a35d38ab1b51d6f3f595int,
        0xaba2e0cd638f25c821212dae55f48218b83662612099000031da86dc1c3ff004int,
        0xeddc471c9dad16da9d453f8e0a9470d590545e58f283d1b5bc04f305f5a01215int,
        0x7bcd74a3bb57636577d3590d23b023719e7edacbc2f8e83196fcef6e37ebbefaint,
        0x7312fff41f6e509bf600556fb1e7d62435216607bae3fc6b083187dc42f8721aint,
        0x1bd081d96aa90dc17847e9043e0fafa387336cae38d8e07c1c94a3d963f2207aint,
        -0x422f73e620c5a9e233176996347a5e61de62d3ecfe60990c225323000b597469int,
    );
    let k = lemma_leads_double(
        k,
        p,
        0x7bcd74a3bb57636577d3590d23b023719e7edacbc2f8e83196fcef6e37ebbefaint,
        0x1bd081d96aa90dc17847e9043e0fafa387336cae38d8e07c1c94a3d963f2207aint,
        0xc4b5e18b28c6a61547dd3f01eb1f9a17a8dfb6f78d17c1e6577fbd9aceb589int,
        -0xb3727a20105696d46eb1ab63ca69749695fa299d16b7642566cbbee59b0f222bint,
        0x7cde4becffae02a32225db43549066093cfa69f1f580baf3ce354b23573d6c3int,
        0x972702966314c31fba38995a4e06692771a8f94b32c7d0cbdff328145166int,
        0x1be24938d9b4e2ec3b1ccfc660a3b8a05114da7f2d2aa9a3cd81c6aae42068f6int,
        0x5922140f05e4967f5d427ffa0f0a769a940cb1eb98611a57cad65f3c766101int,
    );
    let k = lemma_leads_double(
        k,
        p,
        0x7cde4becffae02a32225db43549066093cfa69f1f580baf3ce354b23573d6c3int,
        0x1be24938d9b4e2ec3b1ccfc660a3b8a05114da7f2d2aa9a3cd81c6aae42068f6int,
        0x6f2855c180af082979aea4e86420b127b1161f2f3834138e8ff6965eccd7cea6int,
        0x17804c94f1d202566ae86fc4e1acc015fe336ea52625527282c88065cfedc290int,
        0x2e56e273f1d0aa8418a5a1cf1c5327cfff93746808ba8db096034890290cd018int,
        0x304400b8e70e1236bf4ae43ffd2d0ec6acb9a7812c86be207c3300c74250e9faint,
        0x58155fb36b9d7a244463ce089ca4750103f1e29c80eaead1010bbed9e07d673aint,
        -0x10bb7851db97b5fb6824ef4165a3dc68e8aafc1ef9abfc21dc06e72b0b2b1cb2int,
    );
    let k = lemma_leads_double(
        k,
        p,
        0x2e56e273f1d0aa8418a5a1cf1c5327cfff93746808ba8db096034890290cd018int,
        0x58155fb36b9d7a244463ce089ca4750103f1e29c80eaead1010bbed9e07d673aint,
        0x6d6d505a36e2e7ab1552a9f257f30a5217baf8581bf1afd0db3e120234a41394int,
        0x322368621fd29a9d0c4c4870e44c7a85567029c211df4150e100c82191930fadint,
        0x413917279bf02cd180107c0470f21332b65194e2ed1ceb423dc5369c37f8518dint,
        0x2ec6451a878ebdb3c4bb5a2f057e2610aa1da9a78c1f55bec5f7984f52f2a42dint,
        0x734ef158ab7e88749775b10f9102c3140b3fe9ea82f46190b9edda4ea36a9c9dint,
        -0x81260ae500c5ace887c5032d7520f2c0a0295dae200fb61d33540aeae617585int,
    );
    let k = lemma_leads_double(
        k,
        p,
        0x413917279bf02cd180107c0470f21332b65194e2ed1ceb423dc5369c37f8518dint,
        0x734ef158ab7e88749775b10f9102c3140b3fe9ea82f46190b9edda4ea36a9c9dint,
        0xd8d6e38d9d432ffb72ab57725ba7b3709d7a72f3b00ef74f6808cd7e7c2057dbint,
        0x917cacc6f902bd6409442c8e82a5b1654797c7a9c8b1872daff9d6b8c564ec5aint,
        0x8c45ac867f57bffc96f11f7bb74157395323716d8c5a19f1c0adf7ed09ea872fint,
        0xb7ab5460ec1414e88203dd6382e1a0346d973f2f636b429a95cdd25f3cf494f0int,
        0x6d517522ed63ef7bd90d42566aed01080cb5bcfc27178ffcbc442171b8241203int,
        -0x3f919d42d93eece36237fc0f5d70e486fb998e80fcdeafd55bf97cc58dc361caint,
    );
}

/// A multiple of the generator, step by step.
proof fn multiple_9()
    ensures
        leads(
            0x3fffffffc00000004000nat,
            0x86ed77aaf4c711e12130f313c02293b23896cfb1229835dc1f5c1bf060c9eadbint,
            0xe8a1b38f07fba9e5ccf434c1ffba845db79bf016e5c7e7ecfd4b6bf898f55456int,
        ),
{
    let p = 0xffffffff00000001000000000000000000000000ffffffffffffffffffffffffint;
    multiple_8();
    let k = 0x3fffffffc000000040nat;
    let k = lemma_leads_double(
        k,
        p,
        0x8c45ac867f57bffc96f11f7bb74157395323716d8c5a19f1c0adf7ed09ea872fint,
        0x6d517522ed63ef7bd90d42566aed01080cb5bcfc27178ffcbc442171b8241203int,
        0x7839685e3b1710944770f3dde006bdcfeb593e07e9d906f999c4bc6a5d471d1cint,
        -0x7fe771c39e7f48a093c71f4014641c3a37351727d9812aab053ac60479b6cec8int,
        0xe9a3d1733644f5db4f08256ddca30664b64940e651685f0bfcf0cbef50ad9613int,
        0x3875deb8345e813a90f6a2178929584b4ec06c5d1de667959fcac1b1e3ab4961int,
        0xced803f5194f9bda6f58813c38b04cfe4e769e7b3356042de8fb4a59f5d51a0bint,
        -0x2bd91155f76bd2a68fa8592d36cf53a45b9c70f48946dcab5ad30b0686c55f02int,
    );
    let k = lemma_leads_double(
        k,
        p,
        0xe9a3d1733644f5db4f08256ddca30664b64940e651685f0bfcf0cbef50ad9613int,
        0xced803f5194f9bda6f58813c38b04cfe4e769e7b3356042de8fb4a59f5d51a0bint,
        0x5a63731c3530d5689d028d4389fceab8dcb7913198edcb70d54afd32a3998a5cint,
        -0x1eda23c6b361b22d6b1b26fc59e2191dfa39d0bb428fe85bce8e7a8f36b6bc3b0int,
        0x4022f341b67fc1b9d7f98a20cf959b871cb207d7116a1b887ff73611aa5c295fint,
        0x1fea139230e3e84a3bc0fda577be683b4e466536fe2aaabd98a807b876f80475int,
        0x360d525e6745239bce61c512abf015846cf7cb35f8ea8a3d43e4eca4cfb29394int,
        0x3bd9272b21097208c7e4293fdc3b3ad3c05fcc6f638d5dd0e1a981a6881794efint,
    );
    let k = lemma_leads_double(
        k,
        p,
        0x4022f341b67fc1b9d7f98a20cf959b871cb207d7116a1b887ff73611aa5c295fint,
        0x360d525e6745239bce61c512abf015846cf7cb35f8ea8a3d43e4eca4cfb29394int,
        0x5f0746e3249f77a6c0f353fb7921586053340458cd476f05c3c73846dd2df25bint,
        -0x813856761b04972728133738077380031f7fd8833b4e77653de5224e51a0778int,
        0xe6734df1d46860206e63420f5db933861e3f2f362bc04003703e308b36fcbe87int,
        0x234666d1ac81c3e9050922f694f7c69101efa64726a5247f3671e63a5446e4ecint,
        0x97be86af7b9ce2ec72a22913cfbc8924dfbb6beafe97e63c1646b6fc9037044fint,
        -0x3dbc8be79d7e28c8ae29c5d3d4cd3c675855ab3567a3e5c22f6c8a4c15f992e5int,
    );
    let k = lemma_leads_double(
        k,
        p,
        0xe6734df1d46860206e63420f5db933861e3f2f362bc04003703e308b36fcbe87int,
        0x97be86af7b9ce2ec72a22913cfbc8924dfbb6beafe97e63c1646b6fc9037044fint,
        0x3426eb5453959b33d60a25ea4bb6ac7119c73426243e5747a3b1a00edcc69e9bint,
        -0x23086a1b820d3fde5bd0146aa622a5f90821db905e7217f8eab5cd3792b66ba1aint,
        0x4cb5a1d8782c589a299eb58f79e1e39a0e7cdf35b6e1134bdc2dc810d9dc1170int,
        0xa9fd58501f15a37ba128e29e5f07913b521b013878f71e2ddf3157f25cddca5int,
        0xcb955a9b14885346427ba794528d64637a4a21effa4fd89183c1b1b1daa35358int,
        0x1f51e670933be044929c440b7ee00564bf9feb6e88668ab70712add6397358baint,
    );
    let k = lemma_leads_double(
        k,
        p,
        0x4cb5a1d8782c589a299eb58f79e1e39a0e7cdf35b6e1134bdc2dc810d9dc1170int,
        0xcb955a9b14885346427ba794528d64637a4a21effa4fd89183c1b1b1daa35358int,
        0x5f26b7ffd19fb2190ab8d9a5b0e28d140608d2c726f36eb3675fc16178456157int,
        0x526163585cd1fa1d29793a8e09c8531903d01933394f3de3d8afa0c9bf74dd2dint,
        0xd29d1198b2447a0285dc711a7c423a6842c63eac82cc92379994b047ea9ab4aeint,
        0x235dc26b252441580f959ef9beda7aedc494681ef984a0de1784306c7069cbfdint,
        0xab336a895b1be8405b151daad2e8a62b53ef3522364ad75d4ec08f63fb97bb89int,
        -0x31c523115deceb2f568657bf7b3a80bf6d59578f1c6d5e55d3877e762d6af90dint,
    );
    let k = lemma_leads_double(
        k,
        p,
        0xd29d1198b2447a0285dc711a7c423a6842c63eac82cc92379994b047ea9ab4aeint,
        0xab336a895b1be8405b151daad2e8a62b53ef3522364ad75d4ec08f63fb97bb89int,
        0x8a35f537f0f4cd77efa66b95d0c488491921725f2f3af70e2debdbc0b57f5bcaint,
        -0x14ef69997307c2e65919f9c6c7fc2bae1f69d7ad47b6129c9877b48f2cc1de76bint,
        0xb6cfb73fb94334b0b9d46d14f2ee7cd4516a31831cec2a5e14332787fb99d11aint,
        0x4a9e37c00e740a1023223eccdc1bb1fb0a08f8b9d1b0330517bde5eff979ff12int,
        0xeec0696463e4779df552c80f496013fdc4de0404dd6e6ae98959b0e83e0b5637int,
        0xf028ed9546975a46c03329aafcecbc276e0eaac34074fd4721ea18bc79de2f8int,
    );
    let k = lemma_leads_double(
        k,
        p,
        0xb6cfb73fb94334b0b9d46d14f2ee7cd4516a31831cec2a5e14332787fb99d11aint,
        0xeec0696463e4779df552c80f496013fdc4de0404dd6e6ae98959b0e83e0b5637int,
        0x9c98b2d4ffe66ed507d394aac70806a5ae617c41aff6a55a8af84fbc43a5dc8int,
        -0x175628e22d65a4555fdbaf72b7d94a850996f9447d8c9f4f844861354afa84807int,
        0xa4f2ab4043e71c090baea0fd8cbd634620f69fcc2e325377c0fd07ee1376e0d0int,
        0x5fca7508d18812d4f7d5762bc13492f49ea370c857448aa05fc3e529af96c4int,
        0xc459da7caca8fc9a63125f24b15ac6af7cfe24d6af7baf2ef7dea44814d34bd1int,
        0xaed5b09655ffb2d7b92cd120049aa6ab19093eff0cddba661da32d2d840638int,
    );
    let k = lemma_leads_double(
        k,
        p,
        0xa4f2ab4043e71c090baea0fd8cbd634620f69fcc2e325377c0fd07ee1376e0d0int,
        0xc459da7caca8fc9a63125f24b15ac6af7cfe24d6af7baf2ef7dea44814d34bd1int,
        0xf0bbc9d46a45e65178a790836b90227d984a59e17c96875e1b0cfe764f78b95fint,
        0x327116326c133fe16ef495c12b7c3571c807b4d50239dbd139e012d1c52fa3dfint,
        0x86ed77aaf4c711e12130f313c02293b23896cfb1229835dc1f5c1bf060c9eadbint,
        0xe260a42fa5163547f38561143d9e96580e81e96ebeb4a23b4a9f08e1966d3b3aint,
        0xe8a1b38f07fba9e5ccf434c1ffba845db79bf016e5c7e7ecfd4b6bf898f55456int,
        0x1c3ae5d3c2bf084b2029252c8489b5202793bea369051711709a91147c034d3cint,
    );
}

/// A multiple of the generator, step by step.
proof fn multiple_10()
    ensures
        leads(
            0x3fffffffc0000000400000nat,
            0x620527524d8e1a6ac7d9736997ec4bbd26c5b5a5e14daee8d036bba92b5760f5int,
            0x6c5f8c92ec98d881b9536f7b2df5e9c7044c7a336bea052f58fbde84e278529cint,
        ),
{
    let p = 0xffffffff00000001000000000000000000000000ffffffffffffffffffffffffint;
    multiple_9();
    let k = 0x3fffffffc00000004000nat;
    let k = lemma_leads_double(
        k,
        p,
        0x86ed77aaf4c711e12130f313c02293b23896cfb1229835dc1f5c1bf060c9eadbint,
        0xe8a1b38f07fba9e5ccf434c1ffba845db79bf016e5c7e7ecfd4b6bf898f55456int,
        0x3f0e4d74ad29a313ed4d3f32206cf2702b6c37b35c1f8fa0c820f147f780be74int,
        -0x62becbd44e1514824073a9c2b8502fc6415572a5a855a3673c581a086772cfe8int,
        0x35a854ae4f8979866752129bedc489d6cd00138a95b1057f9df9c53f69b3b18dint,
        0xf880aec0cf4df16115de1b5b2de66b1b982afa17cf62a3760684085519722b3int,
        0x8c3db8e21087c199011168240882e20706b42213da160b54d2265cbb8e5cdcf1int,
        0x14048dfb00528882aa9d65023a36ae30e3b3c2df84bd88838eccda18c9b855efint,
    );
    let k = lemma_leads_double(
        k,
        p,
        0x35a854ae4f8979866752129bedc489d6cd00138a95b1057f9df9c53f69b3b18dint,
        0x8c3db8e21087c199011168240882e20706b42213da160b54d2265cbb8e5cdcf1int,
        0x3fc402de064323959f37290378c396b57f37ade8898957cbf9dcc1aaad4c2201int,
        0x241fbd687209fff44392647933e04f4f1083936a748654e83b847a6ba0751916int,
        0x69e253e15b03c01da1682f2c1a2ef7e1f01af29e49efed92fa52b902829ac454int,
        0xfe20f7dbaf8ea77b5b712e42688b5c87cdab3daf36a9ce468db9b93c6e5e36dint,
        0xf2d735021c01704e752fba73ff4b1b6b0312b0d2fc3e4e459158fa8cdfa208beint,
        -0xd0242cabf7ae68e4ee49b95662af27b413397dfab9c02f1c969c035ba87998aint,
    );
    let k = lemma_leads_double(
        k,
        p,
        0x69e253e15b03c01da1682f2c1a2ef7e1f01af29e49efed92fa52b902829ac454int,
        0xf2d735021c01704e752fba73ff4b1b6b0312b0d2fc3e4e459158fa8cdfa208beint,
        0x8f4bcfe22068ddd31ab5815386dd44acd48226df8d5b8203528c0b0dd5d5b42aint,
        0x8c79ef01ca12ac70f993012abd3c130166e1eafe7c0d8e9560bcc4a25d402455int,
        0xd4deee51db4fa34b66a8ce07871db004778adcc0de20b3fc36c2b2fb1f2e8c0int,
        0x5035c8b267b9661cbd097a95def2f66cc92fd2cb45500b21fa5464bd86795a84int,
        0x896ce439949d2828d630d085ee3d387b335ba0be875819745896280f94b75d7int,
        0x33d24f107458db1329e1931f184b6c917529ab89b25dcc3e056e15e1c0db684dint,
    );
    let k = lemma_leads_double(
        k,
        p,
        0xd4deee51db4fa34b66a8ce07871db004778adcc0de20b3fc36c2b2fb1f2e8c0int,
        0x896ce439949d2828d630d085ee3d387b335ba0be875819745896280f94b75d7int,
        0x4412e3fae69f1c831c33f495810c93f5c79425437ddbf83f3ddbf01eb8dcd15dint,
        0x27e5c1ea7ea565dc918779081882a0a58c8f4a1c8f0d22e620d6e452b1103c7int,
        0xf5b8999d5fa92e6a1fc801854b7b694a36249fb52d7b1add4c418bb20ac5e3a3int,
        0x121a0a8236edeaed3955efe011ef058647880b0815ead1b46a2e44d73b9ab95aint,
        0x7b114253b18ad898a8209accb574e1b97f4ad4266e17a71f3703458bf8ab99bbint,
        -0x3dcd7bd38f3360cd6679302d06023774206da0b82b0d2eee0f29add7c77c78f7int,
    );
    let k = lemma_leads_double(
        k,
        p,
        0xf5b8999d5fa92e6a1fc801854b7b694a36249fb52d7b1add4c418bb20ac5e3a3int,
        0x7b114253b18ad898a8209accb574e1b97f4ad4266e17a71f3703458bf8ab99bbint,
        0xaa436c0918fb7e5399db07bffaa2ba11c9317b1773731b942bfc99a99c781b51int,
        -0x21fdcd2702791a40aca8a8ea98c11052a96c4035d5333a71f70a96de2f87b4cfeint,
        0x7ef68b34297979791ec575cada75b99739867ff1b0a171e43fd9b4a94f857526int,
        0x713d9d3e40c6620fee57be34f7fe5f20e82f49299d7668ec54074f770e370ccbint,
        0x2bd3efc587d135e6c8c1f00da3ef2b49032d4c3b032140872c06851b8e1f89e1int,
        0x4efc247a08fec1e571633f8285086b5e050ff6a7c90fb2e782b026178528ff0fint,
    );
    let k = lemma_leads_double(
        k,
        p,
        0x7ef68b34297979791ec575cada75b99739867ff1b0a171e43fd9b4a94f857526int,
        0x2bd3efc587d135e6c8c1f00da3ef2b49032d4c3b032140872c06851b8e1f89e1int,
        0x710d2cfebc880bfb929ed48b1e6216ee1905e373c2bebdc88fc132126bb1171fint,
        -0x96313ecb4d001bf341d7b0118f17ca609653c6eff9a32d4549c01c93ac448d95int,
        0x9dc32da08eff7c9e2150538711320d8473e2648a58cc5364a5f36f2e44945578int,
        0x31eca266ae247115382345f6b864c058af3135248d51e47f27abf84ffeaaaa03int,
        0x3175375109e67496870913763befaa9f915d54bd6c04a80d64a0e4fc307e55ffint,
        -0xd99e97ff78da7201fdbb85b4d0c288f916995829d7df8282b709cfadfbb9832int,
    );
    let k = lemma_leads_double(
        k,
        p,
        0x9dc32da08eff7c9e2150538711320d8473e2648a58cc5364a5f36f2e44945578int,
        0x3175375109e67496870913763befaa9f915d54bd6c04a80d64a0e4fc307e55ffint,
        0xdfb76d4678e8d1a6204a65cc56557ea03fc4b7a1a19b9c36a16d76e2f3c0331fint,
        -0xcd39da23ea944498c106b3555f77fe80a3eacce6e3c90a9de535aff51f81b505int,
        0xb9f4a286fc9ba95072026ab4a87f1916335d7d2015a336f40d362fb5dd4e8641int,
        0xc38113cef38ca445f2c48ecff234eb73ae4cf072e33d30c85c25c5fcd3c1d370int,
        0x47d6b44a327fab122568f6cfedd95d98153bf644f5208879da4e7e00a959718cint,
        -0x18a348383473942d7b941a14bb9d03f2232c72fd58c48242028449c52e24451eint,
    );
    let k = lemma_leads_double(
        k,
        p,
        0xb9f4a286fc9ba95072026ab4a87f1916335d7d2015a336f40d362fb5dd4e8641int,
        0x47d6b44a327fab122568f6cfedd95d98153bf644f5208879da4e7e00a959718cint,
        0xe057424a2439be06fe809e18450c785aa452e42a6512e71a1f789dc8cb99379dint,
        -0x11751c16457e5a250c8e76f430b0adcf7d81fafb32e7220138ad919ecf7cb1838int,
        0x620527524d8e1a6ac7d9736997ec4bbd26c5b5a5e14daee8d036bba92b5760f5int,
        0xc498d1c0a38ccdb20193cdc4e2fb8e82b7c9fcdf8c35989811e949de6235972eint,
        0x6c5f8c92ec98d881b9536f7b2df5e9c7044c7a336bea052f58fbde84e278529cint,
        0x4d0f84f67a9194e2c707ea0b10bf94951b168a68bded84d231675fd7bfd0908cint,
    );
}

/// A multiple of the generator, step by step.
proof fn multiple_11()
    ensures
        leads(
            0x3fffffffc000000040000000nat,
            0xa1ba0439db761a557f935569072d2656bb8bad05f7138721a593b6574a51257eint,
            0xda89fe5d5c6e6fae98f305f4764823359852bf84f7cdd950d66717ca199b3912int,
        ),
{
    let p = 0xffffffff00000001000000000000000000000000ffffffffffffffffffffffffint;
    multiple_10();
    let k = 0x3fffffffc0000000400000nat;
    let k = lemma_leads_double(
        k,
        p,
        0x620527524d8e1a6ac7d9736997ec4bbd26c5b5a5e14daee8d036bba92b5760f5int,
        0x6c5f8c92ec98d881b9536f7b2df5e9c7044c7a336bea052f58fbde84e278529cint,
        0xca8ddcce6399df139cd1fa6e25a9b37309badab54d8e860ab02c05475fb31711int,
        0x3ae70f6b31f1d0c6d1b6713fec044f4a796f38d87a12ab6cb631e32b0ac0feb0int,
        0x536b42ac934fc5a950d650241dd2b63dfafea0ad40bec26117f117d12dc107a4int,
        0xa0442f134f401c3247df23c184dfb515c0f09d37481f83f43282b14da295ba6dint,
        0x98f833ae7c1cc16207f360843a272227e12b4083fee0f22a2e496a646be95bdint,
        0xb8d85c5c5ccfc836a5174132c6d327f3e5c93ffc949fdfd7809b64e4d91b2f8int,
    );
    let k = lemma_leads_double(
        k,
        p,
        0x536b42ac934fc5a950d650241dd2b63dfafea0ad40bec26117f117d12dc107a4int,
        0x98f833ae7c1cc16207f360843a272227e12b4083fee0f22a2e496a646be95bdint,
        0x744e3d567b6492c41d88350b331250e63d1f1033409481cfad084ab38325d7b8int,
        -0x48dc47903434b0c146160aa54510b088155417b0c2091850ea77e471ff959283int,
        0x10b7b642731eb658eb249927f087fa8051c32494bd67ef67d0193cf8df85f2e0int,
        0x34d6ff80040fa9d00a7bf7c4b20f3d9a726e633437458afb49a9a0ecda116de8int,
        0x571f19ae8d194eac24958a517a4bc6d6f4f3372854ceff51d99a17518425a50cint,
        0x1e4dbe504e26b65d1fb7c9994ae8312c15b1643e87fdbf8a5dd20195a5a8b1e9int,
    );
    let k = lemma_leads_double(
        k,
        p,
        0x10b7b642731eb658eb249927f087fa8051c32494bd67ef67d0193cf8df85f2e0int,
        0x571f19ae8d194eac24958a517a4bc6d6f4f3372854ceff51d99a17518425a50cint,
        0x2ad14b226204ea3e2e6675b10251d894d8b94a2e6e37854e1426f330b19013f7int,
        0x19de387dc5be3dd368a9602b66cdd68dd9431bca2cd779da909c21aaace086d5int,
        0x2e1f63c9b5e3a9e66dcd669473576d943fc6d8b49cd6b10570bc5c90a0775d51int,
        0x72957c313842ab2fd329ffe4971b59d5d8ad0b0a1c10b11f483e3305a14aac0int,
        0x681b3a9f9b99d9c7ad19f4b055bb3ca290ada8ab818cda0ecc911fc76d7225c4int,
        -0x4eb0cbe342accf935746beda8a38538b11adfba555ee3d599425f95fa041f29int,
    );
    let k = lemma_leads_double(
        k,
        p,
        0x2e1f63c9b5e3a9e66dcd669473576d943fc6d8b49cd6b10570bc5c90a0775d51int,
        0x681b3a9f9b99d9c7ad19f4b055bb3ca290ada8ab818cda0ecc911fc76d7225c4int,
        0x4d18fc51db456dcb1777a095c491f770a5bf1e2b284abeda384ac93c62dc19ebint,
        0x25c6d075e8f26c819d13589bef7bcf5a21658b164823aef6936595c936243d08int,
        0x9f4cbe3552fdf27a7c386a404e011b68bb34afde7716075c2c35feb22b896c0cint,
        0x17380a399d2a2d27760bad5c43c88a89a1c1e677cf391d1923c64a96f1f068f5int,
        0xa2925017cb4ec86d78a0e003af3bd6e608304305fa8c05b094077fe8a4b1e94eint,
        -0x2215afffcfb95b1b1fdb39e17f6c4afcde96547fa2bce7fe89ff90f442242845int,
    );
    let k = lemma_leads_double(
        k,
        p,
        0x9f4cbe3552fdf27a7c386a404e011b68bb34afde7716075c2c35feb22b896c0cint,
        0xa2925017cb4ec86d78a0e003af3bd6e608304305fa8c05b094077fe8a4b1e94eint,
        0xddb54f93c91ef6f425a3f002d39d5614f545b482c582deccbd61da7aceec7272int,
        -0xfca5b96e672dc7682f94c59597fb5a87a524d282ecf377450f9c17642b6dfcbint,
        0x455824a22976e78f8d4bbc25000de8ea0f6c104c8a274d95be1bb5cb62b4acdint,
        0xc0028bcf88f8f36b3b2c9cfa92865104ea8f183686a31262126119865fe46821int,
        0xa707c60d84a70a8aef56d49c80980d8041b61f1ab448d1481ac83b7c42d77beaint,
        0x86352fb3ad7ac0a244f10728dfbfb006520473970a8787ff5909418560bc892aint,
    );
    let k = lemma_leads_double(
        k,
        p,
        0x455824a22976e78f8d4bbc25000de8ea0f6c104c8a274d95be1bb5cb62b4acdint,
        0xa707c60d84a70a8aef56d49c80980d8041b61f1ab448d1481ac83b7c42d77beaint,
        0xdf3721981c40f7e752ade7577d5ad3c059039724aca4842100933ba835809903int,
        0x1230f2253ff450f96024118ffa046613355c632d4b79657537aba08572700dcfcint,
        0x67e44c660f584f18f9631c0ef6e22d8c11340a85f33780e53da4f6dbed41cecbint,
        0xc2a11867379efde04c9cb1f76af0a85e30a2407b769d76f2b177b7b0bd23ce5cint,
        0xb16e82ce320e23ae264d7bc59a50c3cce96a558751958b6289008e22cabaa8b5int,
        -0x56ced2cca5dd3037b1457894f860f04b35577f39acf11d7ad04f1eb143478167int,
    );
    let k = lemma_leads_double(
        k,
        p,
        0x67e44c660f584f18f9631c0ef6e22d8c11340a85f33780e53da4f6dbed41cecbint,
        0xb16e82ce320e23ae264d7bc59a50c3cce96a558751958b6289008e22cabaa8b5int,
        0x2e66da5cd594372587952a453715d89703f6cdc0771764a32656ba172f1a108fint,
        -0x3e2a3973e86c2a43ad3e16a016986faba378f2cc8918dd75a42f9936f3ff1b4eint,
        0xa3155044ad61a44b3541b51aa0f794705a98fca37ae5fb1b7bd552322b57b923int,
        0x8691fcc2166d3242a42e0de59e8331c78c6b700acad19d303a1e57c25bd26d8int,
        0xea68766e1a017e7798f7852710e0d1d00446183152fea692119ba5d12ce05a06int,
        -0xaba96b6ca1e3fa12185c2e513f009ae98caf555081964243cb710d60691961dint,
    );
    let k = lemma_leads_double(
        k,
        p,
        0xa3155044ad61a44b3541b51aa0f794705a98fca37ae5fb1b7bd552322b57b923int,
        0xea68766e1a017e7798f7852710e0d1d00446183152fea692119ba5d12ce05a06int,
        0x6b1509fd5faa51d7276ca18752cb78f5318b3830db96f8be5ff60fdb9157589cint,
        -0x7392978acd7327aff4d299a07f56f637ee8059dcc08f17360f494abd925d06f8int,
        0xa1ba0439db761a557f935569072d2656bb8bad05f7138721a593b6574a51257eint,
        0x2cca98149eb875efee55e2ccfa46ba96c431e0bdc3e416cc4f1667a5904cf8b4int,
        0xda89fe5d5c6e6fae98f305f4764823359852bf84f7cdd950d66717ca199b3912int,
        0x914553509a40a99bc953ed8abbc078509a030b86bdb76adac85adc41a5e28cint,
    );
}

/// A multiple of the generator, step by step.
proof fn multiple_12()
    ensures
        leads(
            0x3fffffffc00000004000000000nat,
            0xbd1a31baef1857d045151596821fed19d6ceed9e02576d0a35d0fc46054f50f2int,
            0xb73eca6da0869543490227e9dc6435be543d1e8576a238a2dc1d3c8093c8e6fcint,
        ),
{
    let p = 0xffffffff00000001000000000000000000000000ffffffffffffffffffffffffint;
    multiple_11();
    let k = 0x3fffffffc000000040000000nat;
    let k = lemma_leads_double(
        k,
        p,
        0xa1ba0439db761a557f935569072d2656bb8bad05f7138721a593b6574a51257eint,
        0xda89fe5d5c6e6fae98f305f4764823359852bf84f7cdd950d66717ca199b3912int,
        0xc1b0b9ed9de010ed00d97013814a531d0fc77c1840a7b19aa0841c8cda594699int,
        0x182f4b47020eae55272f371c96aba9e27c0067e6fb776086a70778b8f068ee85int,
        0xe4bf8fbdd7bd69c9ff5e5f6f5db3efc164b108b99262c9398b2491d1a82f5fb7int,
        0x928bf259085a2ab0a1a9b93d4693c68d5dbc864d388373d5b53123c97ef7a342int,
        0xc978b40cf4d2617832c3db3c892460d34af8ce716d769317c0d0b13e56bbf25eint,
        -0x32b572abd5ee40f198604bbf3db861a436d0547666623cd3ce6da227ea1b727fint,
    );
    let k = lemma_leads_double(
        k,
        p,
        0xe4bf8fbdd7bd69c9ff5e5f6f5db3efc164b108b99262c9398b2491d1a82f5fb7int,
        0xc978b40cf4d2617832c3db3c892460d34af8ce716d769317c0d0b13e56bbf25eint,
        0xc2ee99012a740e84052e865f33d3110e9cd383b18abf5d18b30a287bea6c065aint,
        -0x1325ed8008d1277aec1a2378d7767a0dcf2c99e4075fa292742ab304ab7e0d3a8int,
        0x78cae8dbe02ecea8ec61eae6b92e56e8891508bfeb7c1b88f5437aea778153dint,
        0x946e7e473263b8d1c895954edae7a2631347e1f4b66a68bc6e2177a413be7d07int,
        0xd86b2d77627b9ef2e379762b9c8443ffd71b12ce0ab090e3cf2617c1aeda7240int,
        0xa86eb828e11d3744fb23c5bcf492644197b51333f4f087d7eeb696a889ef59baint,
    );
    let k = lemma_leads_double(
        k,
        p,
        0x78cae8dbe02ecea8ec61eae6b92e56e8891508bfeb7c1b88f5437aea778153dint,
        0xd86b2d77627b9ef2e379762b9c8443ffd71b12ce0ab090e3cf2617c1aeda7240int,
        0xf5d559eb2562f066aad3a948347f6ca232be32862e90a055ee1bb74490142c3aint,
        0x19efae2d87c6b375085d9fae83f51156601a35941f28797006e8e4e5856976c98int,
        0x376c56998e94e17dbdb6f894582010b1aeb4a17d07ff59f159bc3440477984a1int,
        0xec120febc282feafd884d3ff66aeb8cfaf31b5d8dff20007991f857565b5b1f7int,
        0x50b5308bcbf724d856f3ea30a932f28063a2cb30c6d59442404afbfef6ee6497int,
        -0x2df8f1bb09225c7453d3bb23cbb39d51e37514032a2c6b0751a74a6be6eebc81int,
    );
    let k = lemma_leads_double(
        k,
        p,
        0x376c56998e94e17dbdb6f894582010b1aeb4a17d07ff59f159bc3440477984a1int,
        0x50b5308bcbf724d856f3ea30a932f28063a2cb30c6d59442404afbfef6ee6497int,
        0x3a170b35d81701aa904b0883d669d3b4ad494dd2720a8b9070d24057aa2195daint,
        0xa17072193f093fdc3f62b50307d598fc6b3666823a85913664ede14eb03094int,
        0x44cd9ed5e3526540a6aa59503c3115ad7959f8aa58f94598bccd36dd89606a3aint,
        0xd2e732777435ff02a2f080749b850ab7518c564589032ecf7cc25c49667f5d8int,
        0xd4d5045073cec417e8abb78844833a90b25cd48d15a9bd002251e39f778f63a5int,
        -0x3093eb12a31a07a86b0781aa49af551a34ec28cc85f03c62ff844e1dc87a67aint,
    );
    let k = lemma_leads_double(
        k,
        p,
        0x44cd9ed5e3526540a6aa59503c3115ad7959f8aa58f94598bccd36dd89606a3aint,
        0xd4d5045073cec417e8abb78844833a90b25cd48d15a9bd002251e39f778f63a5int,
        0x34716a27aef726c461f71c4c9498f25d0ace1de68c852de77677816fa2b4ffdaint,
        0x1fb979b4cf967e88a5ce3e7447b9c0147d76859aad62655ef500f7d385fbd465int,
        0x54134a3938903af5c8fa03add6f625854c61a9179552f73beae8797f66243e1aint,
        0xabe455f0ce0065a7649f8e6c81d27783db745ee38ef5035a59dc065c6a10ceaint,
        0xc1548c91d9f7a71fc0f440f5aacd4a96343648347550b6e0a427f07c372e11bint,
        -0x320eae60e4e710db169c932011ffb7ae7f15fbb390cd61bfd85c0b6fcaf2e80int,
    );
    let k = lemma_leads_double(
        k,
        p,
        0x54134a3938903af5c8fa03add6f625854c61a9179552f73beae8797f66243e1aint,
        0xc1548c91d9f7a71fc0f440f5aacd4a96343648347550b6e0a427f07c372e11bint,
        0x7f0f1191a73bb7f2bc8537e1f6d9b0dab3138ec933019f8a3e8f58c501c38862int,
        -0x46d7741e95b7b6d1d89e0b4d9167c1eec89eef66242f4cc5e155e2b01d2138c3int,
        0xc7f6ad66b4446776d8a62bdeb47919f86f2f9ccf49e8b62cc8e71e7b29a874dfint,
        0x3f0ff451d34378e8c7055f95f383c66b6eb2a0f0d5d727a8a485ae3c23fcab8fint,
        0x8b936e6b1542ee1ecdba183e88344c701f780b1742cb70241ef70d7abe354933int,
        -0x3984a07aa2a2d27708d4e7668f9cdb519739a67cec0ec069b67f3bb8eb933648int,
    );
    let k = lemma_leads_double(
        k,
        p,
        0xc7f6ad66b4446776d8a62bdeb47919f86f2f9ccf49e8b62cc8e71e7b29a874dfint,
        0x8b936e6b1542ee1ecdba183e88344c701f780b1742cb70241ef70d7abe354933int,
        0xef884e9262cb17dab5de3cfdb30b3ec98157910d49d6f8c884b4ee55a475849cint,
        -0xcf6263583e0599a46e85e061952006fbba19301566b9537156a0b061eceb3f68int,
        0x418c3823dcb749f786b4c8be43e02705b58510a366c1f3990f33be5b2fe87fd2int,
        0xe01fcb49c83d8185386483eb1b0004bf1164e0b24d4a1bbe235f13df27f02a80int,
        0x1b3407bc6a348a335bce775ebc0aa05412f456d76895be2fe9d6899b0e9e3c04int,
        0x7dc4f5497cd4d86b6edf2838a47adf293fa4c7ae928a63b5939ff5ca4e8e7d4bint,
    );
    let k = lemma_leads_double(
        k,
        p,
        0x418c3823dcb749f786b4c8be43e02705b58510a366c1f3990f33be5b2fe87fd2int,
        0x1b3407bc6a348a335bce775ebc0aa05412f456d76895be2fe9d6899b0e9e3c04int,
        0xdc00183f5144f7bb77b62e0cdbb32980488c523cd540e08c5a4ca9f94ecddd85int,
        -0x398117bf393a0fa9a76ff40ffb698a2e10f4fee048ebfc0d02f33f7d91b2b5fint,
        0xbd1a31baef1857d045151596821fed19d6ceed9e02576d0a35d0fc46054f50f2int,
        0xbd1029ad930aa25d13ed63e5dbdff0994175436c9e3da3f1160bd9b8d26f697dint,
        0xb73eca6da0869543490227e9dc6435be543d1e8576a238a2dc1d3c8093c8e6fcint,
        -0x6a2e0e321c89413e246346b373cc3d4605dbc973a82450708345957c86059760int,
    );
}

/// A multiple of the generator, step by step.
proof fn multiple_13()
    ensures
        leads(
            0x3fffffffc0000000400000000000nat,
            0xe66c9188abfe4733b1ef72037ed1f24e313deba45435092fb946f9df854c0dd1int,
            0x8ce92400fcaf4169e3e86381c74a56ae48752e2702662917597ff2144452c8cint,
        ),
{
    let p = 0xffffffff00000001000000000000000000000000ffffffffffffffffffffffffint;
    multiple_12();
    let k = 0x3fffffffc00000004000000000nat;
    let k = lemma_leads_double(
        k,
        p,
        0xbd1a31baef1857d045151596821fed19d6ceed9e02576d0a35d0fc46054f50f2int,
        0xb73eca6da0869543490227e9dc6435be543d1e8576a238a2dc1d3c8093c8e6fcint,
        0xff5ed67a7b88772b5a12abde3559cdfc65bd1644b9f8d39b2234d47c3f98e647int,
        -0x357833e54e0b16e786bc689798cd74f9b44890edfd36830e0da16b03c2e0817fint,
        0xbd71b43fff25a6afdeb734873f64ea529b7ba3ae9dfb7e11a16044a6fe2d5833int,
        0xfebe126b367ba92c39ef6a077826223b3556dfe4c89dfb40bad8f3c1d3585266int,
        0x8935c3f9cd2a44df8c7b0c1060a527c302c9f92e2b34bfa2c350bbff111785d5int,
        -0x574b6dc92a1b124120b4064aa89ced019ecb97d80325aa753a15ea8d6f2a28int,
    );
    let k = lemma_leads_double(
        k,
        p,
        0xbd71b43fff25a6afdeb734873f64ea529b7ba3ae9dfb7e11a16044a6fe2d5833int,
        0x8935c3f9cd2a44df8c7b0c1060a527c302c9f92e2b34bfa2c350bbff111785d5int,
        0x831d55af0cd9d778ae74a57a101f39a91a991c641d718696641542ffe094adb4int,
        -0x11806cb5d0a7d5f83b93c898eea4d866f7227ba03d9397523086e03f3554ac710int,
        0x95a5a7d8585749ca8f4d56e3851b1a9717871ff6ed9f0a558c204143dcc5d5eint,
        0x4327090df0a49b293cf05a4e001f46019855f841bedcfe31a5332a75ec2a4734int,
        0x6c9b943555405c10a0e240c5338f5783d10000a266bb5246c616feec7b0f2fe7int,
        0x5c3c95daf14f9c88208020c8b9274cf32aeb0eb72906b831629550045b5066f8int,
    );
    let k = lemma_leads_double(
        k,
        p,
        0x95a5a7d8585749ca8f4d56e3851b1a9717871ff6ed9f0a558c204143dcc5d5eint,
        0x6c9b943555405c10a0e240c5338f5783d10000a266bb5246c616feec7b0f2fe7int,
        0x4d80feec84f2f1f45e8d2e6532c8b02fe1401173e12aefba1171a42300565009int,
        0x40bc9c483a36f56ae4dca99c6a2a29ffec81c1ae6bccd5e50d6c3212df628d4bint,
        0xd3876b19d7eb9b1d49a34396ff0cac3ddf7062a16ea041883416f72e1b446217int,
        0x1776da5a49d02530a4b33c2e75335314f29fac4d9a5467b35d8377c6b7cb7c82int,
        0x8eddf77b949ee40af6a70a218504a0fbd482a5bdb0c25f4b069ac0b84311bc9bint,
        -0x3d356ddb112cde9fcd80f7aa43df2ab33e7f97b3019d3541bd910fa0610718fdint,
    );
    let k = lemma_leads_double(
        k,
        p,
        0xd3876b19d7eb9b1d49a34396ff0cac3ddf7062a16ea041883416f72e1b446217int,
        0x8eddf77b949ee40af6a70a218504a0fbd482a5bdb0c25f4b069ac0b84311bc9bint,
        0xdaa5e843944273a1b96ff0fa22ef08dae093f9ee72d3a8a5d4d659fbd1ad45d4int,
        -0x1184e4fb00fa3f0a040c506a6d008f5e0aef3aed8cb5ade91adaa5b8b51211488int,
        0x71d3b9ec82e1107fbd73f248a68492e638befd5dc91a488337e4bbcc7929842fint,
        0xbabefb190d17d44032df1792931ca7e6eb09a51861f5ef747191f325141e50cdint,
        0x27e04014bf912825f0e7fa3846ada22107e16e124de1f4ec1c3debadb3223499int,
        0x53725656c342d2fe145694268d9e8bdd19b835bae86620d9017e79101c5ca514int,
    );
    let k = lemma_leads_double(
        k,
        p,
        0x71d3b9ec82e1107fbd73f248a68492e638befd5dc91a488337e4bbcc7929842fint,
        0x27e04014bf912825f0e7fa3846ada22107e16e124de1f4ec1c3debadb3223499int,
        0x5b21e7fa6587358f4a0719b7f24a0be632a0c4926147f67a6b964359bd9b1426int,
        -0x7b71ce18ebf9e9d606fabf88de6ad5ac2eb42435e7ed805f0ba2613e05ba038cint,
        0x599c611e111d79c7149b95a176a83bb07fa893eae430b9c1228f8df876a13475int,
        0x20711f69c563447dc98572536ad5ce8c33ed5ac4b7672147a302c573e55a472fint,
        0xac4af1c12d85fd2eb0c64f5b7ca22e12d68ff9d4508b5353d3d080087701b2b3int,
        0x89ee1a57e75b4fc68b97df2b1dd0f4104c0f628b64b8529d55b7cfc8c0f89b0int,
    );
    let k = lemma_leads_double(
        k,
        p,
        0x599c611e111d79c7149b95a176a83bb07fa893eae430b9c1228f8df876a13475int,
        0xac4af1c12d85fd2eb0c64f5b7ca22e12d68ff9d4508b5353d3d080087701b2b3int,
        0x8173b5515b18f456c36d07a589d0809b78057d35363b00fbe45be2c058ddfc01int,
        0x5024f5e17352758ead08eceee6c03b6763aac249ed9bc7cb8bf62d06c6db6b02int,
        0xda46f26fae3b620f791a401af2f5fd6b636c30ff562ef49e3e4845567b68cf24int,
        0x4175d108a6c8f45f6bf2a864b9003c686b8637c5aaeb7a0a35ec3e09a6df400dint,
        0x843a73bbae67ac33c7ce62ba5482923f5e8b017a9308fe5f66b9df9253058f03int,
        -0x41101afb25659cd363b7d94f18b2377f2b8a2cfa8ef1b59e92f61d9603d9df9bint,
    );
    let k = lemma_leads_double(
        k,
        p,
        0xda46f26fae3b620f791a401af2f5fd6b636c30ff562ef49e3e4845567b68cf24int,
        0x843a73bbae67ac33c7ce62ba5482923f5e8b017a9308fe5f66b9df9253058f03int,
        0x4120ee45f0dfbffc5406f318ffb6992a6d5fd742d30354e96dc60da44d0ebf5dint,
        -0x1eb0f0629cc41f302c0b765989b92d683312c6cab4f264ac6616d5c3d6932ab01int,
        0x15091cd40ea0b7243248f6e41a030db342ac204395a60c6b324a909e9f99e18bint,
        0x1091bd3c0425b3a5d98f7564ac67da20533e320f80e8bb5227789a2c2733980aint,
        0xe68c96f9f7be69b0cec0e21835167d0141d8d89147c58f9fc8058efba4ebe4faint,
        0x322e128cc8ffe9a604f8b02df618802a8bcba29e3dd678dd1e9d5cf7b721fc68int,
    );
    let k = lemma_leads_double(
        k,
        p,
        0x15091cd40ea0b7243248f6e41a030db342ac204395a60c6b324a909e9f99e18bint,
        0xe68c96f9f7be69b0cec0e21835167d0141d8d89147c58f9fc8058efba4ebe4faint,
        0x1139097d931db542104c09c5dd572dd846ed6e13fff8713f446eb978518dd588int,
        0x19d5ea971b461a0d57ddffba7c184042f21a0f008d85d061f04a41c9e58396c8int,
        0xe66c9188abfe4733b1ef72037ed1f24e313deba45435092fb946f9df854c0dd1int,
        0x1289ff7e8f827367bb1abace7329eb538aebccca8976b56cf6a4be7ca9438a7int,
        0x8ce92400fcaf4169e3e86381c74a56ae48752e2702662917597ff2144452c8cint,
        -0xe1641a83dbf4050b4a51beb5b5d4ee103d9cccfbd5efcce7bb44e5748c32b4aint,
    );
}

/// A multiple of the generator, step by step.
proof fn multiple_14()
    ensures
        leads(
            0x3fffffffc000000040000000000000nat,
            0x137ab076bb006ca0449f1c6e4ea180084ac32b37f18567b3215fd3a6dff31586int,
            0xb48f265b71cf8b4a4640051d9395c265705ffc5ffab04fb67abec27b0d7bbb6fint,
        ),
{
    let p = 0xffffffff00000001000000000000000000000000ffffffffffffffffffffffffint;
    multiple_13();
    let k = 0x3fffffffc0000000400000000000nat;
    let k = lemma_leads_double(
        k,
        p,
        0xe66c9188abfe4733b1ef72037ed1f24e313deba45435092fb946f9df854c0dd1int,
        0x8ce92400fcaf4169e3e86381c74a56ae48752e2702662917597ff2144452c8cint,
        0x47056b6840ac33347b2f11cf8d35ffdb0e1a2b43c465e485071ba0206c46f3a2int,
        -0x26952d61368d28822966f15100cfdb666cb7520c2ab29299257c7a0ec1a297b50int,
        0xbfa8340fb32309b8f444854e4fb89ccee57951a47674d152325776b2ffa57918int,
        0x13b401b146b65d56de714e69efa765c72e571afefc6de99f74a610b735c8a236int,
        0x73a69184be80b5c39262752a7b570cf4550ae232d4f6181a1aa48af83e3d4964int,
        0xac1480647c5a692536f5427627397d476499c6006af00b99c503ba51956bddeint,
    );
    let k = lemma_leads_double(
        k,
        p,
        0xbfa8340fb32309b8f444854e4fb89ccee57951a47674d152325776b2ffa57918int,
        0x73a69184be80b5c39262752a7b570cf4550ae232d4f6181a1aa48af83e3d4964int,
        0x9fb98acc9585b373c8a90ec8524baded69ceb436cb0791bf8969ac3fe4628debint,
        -0x11e24b7b2dfb11d06d9c640c7c0bb2553ba76b149ebb7ecb6c6dd2276b145cedbint,
        0xc62de27c19739c5e20fec8bef9d31977dec793f8fe4dc8fe35c5acc548285167int,
        0x63a800e46c5565be032b272497a4a6aa7af5f57be3c8b16406b945c5b8da8ddeint,
        0x56417ec828902592517d1e95d1cce3a97769683231249f5786c69925c9abe59eint,
        -0x411c179aa5060dc4fa379f4475267232d1e3dc3225a3ad4c81d8cfb2c98bd79int,
    );
    let k = lemma_leads_double(
        k,
        p,
        0xc62de27c19739c5e20fec8bef9d31977dec793f8fe4dc8fe35c5acc548285167int,
        0x56417ec828902592517d1e95d1cce3a97769683231249f5786c69925c9abe59eint,
        0x89b1463a1befd83c14ced75e01358695401389e53ae8ae55863db8cb7dd6a47bint,
        -0x16f77781f078c23cff9f39c4527b066da0151995564695401f446b8ebcb520f84int,
        0x4b5d05f4294cd1213c6418024b7a66e6d7ba3437dbaf742caccf74ad7f92d175int,
        0x4a0f37ecab94637d88daa305f94821b4df1bb92c071ec55a9507d28e8a91a12aint,
        0x956d4acf8444c3464ffae6f27341fab14881003c708c45f8275ad77e390216d3int,
        0x420ed21e7896da289c94cca42c4a425f9135210cf81c9ab4f7e62f5ebe967b2bint,
    );
    let k = lemma_leads_double(
        k,
        p,
        0x4b5d05f4294cd1213c6418024b7a66e6d7ba3437dbaf742caccf74ad7f92d175int,
        0x956d4acf8444c3464ffae6f27341fab14881003c708c45f8275ad77e390216d3int,
        0xe19f1a7e5853ff6c51e5a935fb01665a29a3f474ce6354382056553577c560beint,
        0xc4d4f052ffcbb61e6635fd18470d6a399a96a8b84e3ca35b659a968b85869d34int,
        0xb1fc884bb5e582e2aebefb6536b08e91b5bf957908ace069a0d99ee81e1338a5int,
        0xc6d90f74c9cc5713d48200c57ad16bb6365195807d06682298cf3578703dce8bint,
        0x4c6cbf91533a843952a967e845eb05c193f6e9f2bf3ad11b3aa7f9181b0bd0bfint,
        -0x5a71f9401a8c0c998ba2ebd3e71556ad1d3d0d6f040f5f6bd2d9e6c12a0382ceint,
    );
    let k = lemma_leads_double(
        k,
        p,
        0xb1fc884bb5e582e2aebefb6536b08e91b5bf957908ace069a0d99ee81e1338a5int,
        0x4c6cbf91533a843952a967e845eb05c193f6e9f2bf3ad11b3aa7f9181b0bd0bfint,
        0x987f13515ecdda315424c5dab8f71290f34f338d008df6e4ed5289afab30b7fbint,
        -0x1183085d5a6c0eaccfd00a132e0777815fad09171e433203a30901f06fc289982int,
        0x3c9ac9e94855c2a76e1c311badf746e6e8461039cb255b1573666f7645d3e14int,
        0x5ad72605279cd74d8d6610308bd9a0f2b7245f9bb1a09dca5a1d568ecc2adf45int,
        0xe2846e6dbe9114c9f5b3e9bbe676db2b863c7fb166363858a6a112991e36c27cint,
        0x67c4aacf53616b9d906bf6116e129ae936bb3959549fefcfe224db4d37884010int,
    );
    let k = lemma_leads_double(
        k,
        p,
        0x3c9ac9e94855c2a76e1c311badf746e6e8461039cb255b1573666f7645d3e14int,
        0xe2846e6dbe9114c9f5b3e9bbe676db2b863c7fb166363858a6a112991e36c27cint,
        0xe28a5738d81eed433a6faca9c96b9c56216b4e8a6cf2eadb366710a4e02f2ec5int,
        0x190bb99584848d91b2aea7bb5dbf35f127cac676887bd48793d9cdd50c50d31d5int,
        0x67252a576aa8a6e761254f427224f66b158941fd14eec59f3830b6b5f81f373int,
        0xc8788cc34d0fd8894d7f2c4751991e5f4c7cb8a89fb01ac5fccab267335b0c02int,
        0xb260322569de9de45327588f81aaced77fd4a58e9a85441584f24fe5694fed0cint,
        -0x25a52637d4453f2a5c6be380a62d75418aa09dcb2f82378e8c6ddd43031ac5dint,
    );
    let k = lemma_leads_double(
        k,
        p,
        0x67252a576aa8a6e761254f427224f66b158941fd14eec59f3830b6b5f81f373int,
        0xb260322569de9de45327588f81aaced77fd4a58e9a85441584f24fe5694fed0cint,
        0x57329a53b80b26a25567325516b703bbf98edc4fd1c413a46f922d9a7e33d1f0int,
        0x790739f17df4f20387aebcc38e0c55e80c74ee1fc3f4795caf96d89f988a8278int,
        0x3a7d5dbf231a20e1c049135883aaa8bc956ee17e0af726e0445bd279316ade49int,
        0x1db36ee5aa87bc51405031fa507b03b4ae63abf7ecbdd3504943e76a5ea5042fint,
        0x7f202d883ee5a450a2c5eeb1b7c68b079ecfc00965948fafb184446743daebe2int,
        -0x11ba0a4da003e396b9c02cd6d857f046881e6fa75013a52e9f4a2ea7441e4872int,
    );
    let k = lemma_leads_double(
        k,
        p,
        0x3a7d5dbf231a20e1c049135883aaa8bc956ee17e0af726e0445bd279316ade49int,
        0x7f202d883ee5a450a2c5eeb1b7c68b079ecfc00965948fafb184446743daebe2int,
        0x31f4642ea5dcd28766551a9afbfb9808b6c2b7092ba9d93b89f08f4559ce5bc8int,
        0x985e6a69481a89d71954d316d4342c7d837eb39de602d0d117c9461e8e8d550int,
        0x137ab076bb006ca0449f1c6e4ea180084ac32b37f18567b3215fd3a6dff31586int,
        0x9bf77a9055ea746ae32ac8007dd53a7d6f2b315405688fd6fcf6ca05c0105d8int,
        0xb48f265b71cf8b4a4640051d9395c265705ffc5ffab04fb67abec27b0d7bbb6fint,
        0x79cc0fc33feb0baabf824e89edf91dc20e122134b6a8175a800f2debf7a7df9int,
    );
}

/// A multiple of the generator, step by step.
proof fn multiple_15()
    ensures
        leads(
            0x3fffffffc00000004000000000000000nat,
            0x3e218472f194dd9c4ea8870b7fbab87f91219d417ef0042de0fea5a53725e96aint,
            0xeff097b8c06e21f328cd3144ea3c88763b928caf3ccdfb7b120767f8487042bint,
        ),
{
    let p = 0xffffffff00000001000000000000000000000000ffffffffffffffffffffffffint;
    multiple_14();
    let k = 0x3fffffffc000000040000000000000nat;
    let k = lemma_leads_double(
        k,
        p,
        0x137ab076bb006ca0449f1c6e4ea180084ac32b37f18567b3215fd3a6dff31586int,
        0xb48f265b71cf8b4a4640051d9395c265705ffc5ffab04fb67abec27b0d7bbb6fint,
        0x60835709c1e53090a3e88139238956acbed1d747b6b5191f37088858a778063cint,
        0x83b24f128a9b220312d7d2bace215dbb56623f95bacc8bf3cba4cf214dc0b661int,
        0x6f68c2ebac627b719c61a944e5a49f21073956412c771043f16c9be7df1638f5int,
        0x2462c4a9a762bbceadf13201b2fe21ee784e7bb708424a50f1ba698d7e9585f1int,
        0xb3f46e6bf26304b2f519c9beecd98090540e68eff9260af239674196d451509dint,
        -0x22a87100d849e932dbf93c95abee81f4bbc5ee814326dcdca3e2dbf97a1a0bf0int,
    );
    let k = lemma_leads_double(
        k,
        p,
        0x6f68c2ebac627b719c61a944e5a49f21073956412c771043f16c9be7df1638f5int,
        0xb3f46e6bf26304b2f519c9beecd98090540e68eff9260af239674196d451509dint,
        0x24b605a8127cd0ba15669a0685e90c4492929bd4bd7e85379fd0cfb7537ce808int,
        -0x5dd76527233a6c02dc3056ba1a488c1f8c2cd94876706f4b4c4575d686f14a68int,
        0xb283f058a69d2a8462e6383e94f4eb5262c800e9e78b2965471ec9224d9b7404int,
        0x543b303559116419437afba37bb092c30eaae6c73ae76fdb5ed1a1b41b965aeint,
        0x1c44f51b9ca0797ed56e6e648c3bf8caed2f7b273ccb5624d3f51aff94dc2484int,
        -0x99f89313edb41023312c184491d6a2a3c5acd1045f9bdf2e8c43205ecdf1a67int,
    );
    let k = lemma_leads_double(
        k,
        p,
        0xb283f058a69d2a8462e6383e94f4eb5262c800e9e78b2965471ec9224d9b7404int,
        0x1c44f51b9ca0797ed56e6e648c3bf8caed2f7b273ccb5624d3f51aff94dc2484int,
        0xe13682b309f8cb0691ef7388591660292c8a5a5affdb52650c5a712a43b864d0int,
        -0x143b5f9e32b657679d830a674e61b7eaf9a2c624d80a08855122d54bf2bbf9653int,
        0x207a8b76cdc5d042ef703632ebc23be14f5104be5b6d46912632e1f5142d07aeint,
        0xc620dd5ae3eaba88f1985ec031ff9b83db1a7b6a04778f5e3ec5b663bcb0c6b6int,
        0x9a93b46850ef6250a2b641b122e90139f2724409fa0065c7e2f0e6ec8078ab0dint,
        0x80795a352f2ed9741748ec2fefb42d7a6c88e4f7d9a6a00d8a3798e9e97b31b1int,
    );
    let k = lemma_leads_double(
        k,
        p,
        0x207a8b76cdc5d042ef703632ebc23be14f5104be5b6d46912632e1f5142d07aeint,
        0x9a93b46850ef6250a2b641b122e90139f2724409fa0065c7e2f0e6ec8078ab0dint,
        0x71ae07f07c9178adc4e8b1b9bbc13f80834b46598a8f2f105c544263ed6c5f62int,
        0x7cebf70f8b749f85506bd451f83336e884456e012597ebfbd66fb98059e652d5int,
        0x8fa197b480024f2d2d91f56dc827badb983b6255cc5737f7b5b7bc80bc2fa47bint,
        0x327b19514b9be4544f26ea62c64a19a7fc6b94fa5db27bbf9a9b5c22d24fd253int,
        0x4fa0f6bf3b9947ecb982771e8a4be0dd2743c38a2b42fe045e839df15891a7e8int,
        -0x315bcc643afee2b0045bfada0a3e775586eb8c4f4c1392f73e6d34c7ee499391int,
    );
    let k = lemma_leads_double(
        k,
        p,
        0x8fa197b480024f2d2d91f56dc827badb983b6255cc5737f7b5b7bc80bc2fa47bint,
        0x4fa0f6bf3b9947ecb982771e8a4be0dd2743c38a2b42fe045e839df15891a7e8int,
        0x715b7e81ce4236f5ef4837b4b86e13d1a9b57437818b6aab8ae55ed9f3297408int,
        -0xab3cc37caf13fa3c321cc4909be893517ed3ec7243aaea1e3be111bc5d0d4538int,
        0x3f5c9404b0ef6999dcf966ee2a3848d4670f23241cc23a85a495c9318fdc2299int,
        0x3231e661f91506d4a9fd1bf24386b2a6ec3fd56ba80e86624540f3a579142b4fint,
        0xd3ddef8f79c72752315ece4c73fdf71f6ca398ddc0b80b32388029721c02e1acint,
        0x238b26d3b8b4c961f46e1872791272cdf93a4a4726d8246e4d4eda98e7ec1284int,
    );
    let k = lemma_leads_double(
        k,
        p,
        0x3f5c9404b0ef6999dcf966ee2a3848d4670f23241cc23a85a495c9318fdc2299int,
        0xd3ddef8f79c72752315ece4c73fdf71f6ca398ddc0b80b32388029721c02e1acint,
        0x547ae472aa91fc803de755e3e1f408d44ce30b5ec0e6d9a4247cf83701db7d68int,
        0x5cc8f7e0e009c18ee40a187d57661059c6f1b3b2635791a5a3783ee235edaa90int,
        0x988260123dbaaa01e733dbb56bc51b6acefd1b7e5f127fbfe03699fd7a4aa081int,
        0x1be0e0e9e4f7b4f301612bfa0d757b1a119947e6e769d0395d555685fca42b73int,
        0x9e9136612251d01c0cff9c41fc5a915e173b91980e01469ef88e7ae07ba22d32int,
        -0x1d6b32856609dbc945ebb4c7d3dc1a04bd9840aa3c4ead41a1372f829a8582e2int,
    );
    let k = lemma_leads_double(
        k,
        p,
        0x988260123dbaaa01e733dbb56bc51b6acefd1b7e5f127fbfe03699fd7a4aa081int,
        0x9e9136612251d01c0cff9c41fc5a915e173b91980e01469ef88e7ae07ba22d32int,
        0x3df3e6b77a4431723a77d513db2a5789242848efec7686876fef2ca6385ef625int,
        -0xc3d1e40b23ecb5f6443afac449caeac7f59bcad41c72e05d20e8871412d4a574int,
        0x3b7d89f42bfeb6b5b62e9130ecc46f51c4216ecffcda5dfc0bcd89c4a2dffbc8int,
        0xefe24534f82f48c1ff9eeece2c3bec7d749e8493003dc6450f71ed9b79e1b71int,
        0x99ea53a17143a7b8fe0e7103a458d54bce4a88d13085d1d9e5da2042c5d08a40int,
        0x1682c67182888d8ab1c9f738ad06299edb883977657ab780ce769ac4b0d122b5int,
    );
    let k = lemma_leads_double(
        k,
        p,
        0x3b7d89f42bfeb6b5b62e9130ecc46f51c4216ecffcda5dfc0bcd89c4a2dffbc8int,
        0x99ea53a17143a7b8fe0e7103a458d54bce4a88d13085d1d9e5da2042c5d08a40int,
        0xf495f958ef16be4ac876c8b1254a767b14fd376816faadf6241fd68cdcda5c45int,
        0xfca1b493308c16cd05f4705efc7e790c8711798968adb2ad05fa9daf3f6cde3dint,
        0x3e218472f194dd9c4ea8870b7fbab87f91219d417ef0042de0fea5a53725e96aint,
        0xe9ae3b2ea5d606654a735ac3ba9699c98eb97f55897773f4d84368de9e203661int,
        0xeff097b8c06e21f328cd3144ea3c88763b928caf3ccdfb7b120767f8487042bint,
        -0x285d6c40c1cb0e9c9537ee6d242a16fb7d1d1d7584642497698741109752cebint,
    );
}

/// A multiple of the generator, step by step.
proof fn multiple_16()
    ensures
        leads(
            0x1fffffffe00000001ffffffffffffffff8nat,
            0xe291177aeb4b25bd7c9bba9368494265f87107a3c8940b20cf67fd0a943c4c55int,
            0x50a8da368285ed306028cd0f79a95baa5250c72805bcb106d46638c3c2b8a754int,
        ),
{
    let p = 0xffffffff00000001000000000000000000000000ffffffffffffffffffffffffint;
    multiple_15();
    let k = 0x3fffffffc00000004000000000000000nat;
    let k = lemma_leads_double(
        k,
        p,
        0x3e218472f194dd9c4ea8870b7fbab87f91219d417ef0042de0fea5a53725e96aint,
        0xeff097b8c06e21f328cd3144ea3c88763b928caf3ccdfb7b120767f8487042bint,
        0xb7fb27bdde87ff61b2afd9bbd0930767cbc1cd4f403a9dac55450d80f5b7aa7bint,
        -0x17aeb54e2f35c178a73d4a62f71b48bd7736602c6e2e953ccb3b26e8625ebda9int,
        0x97c1ebf697402d6844b68a96bb8afa89dfd067ce77fb066251d1cf3625070956int,
        0x84390938ecdd3da4a5bf046b6914eee90f1e44bc54d0555334ad116bf7f14511int,
        0xb0fb146dc2e2184e96b5d3afc27f42dfcedc090cd55778a4694a6dbc584b72a0int,
        -0x4069982ec304ae62b0a4b6d71d3c0f96f415ae23e699d768b67873afab1c7ad1int,
    );
    let k = lemma_leads_double(
        k,
        p,
        0x97c1ebf697402d6844b68a96bb8afa89dfd067ce77fb066251d1cf3625070956int,
        0xb0fb146dc2e2184e96b5d3afc27f42dfcedc090cd55778a4694a6dbc584b72a0int,
        0xc45ad7c85fa6a58b7d12729bdfae488ba64087dab9669071ed1a32bb519126acint,
        0x19b0c659cde1276cd45109b0c49c995ec1a2795e5721550fc350e76f877f3a9int,
        0x48ee928b7379c6c94778829a9aa24bb5f63fb69d4be0386e13daf7589c0fb0c7int,
        0x969b3aa7d7d7d6d0c104de013965124cb859addf57ff99576d67b9b7396e3fe3int,
        0x138bdfb66dc66e72bd5b884761001a4b37c934ee31b4b60ab1eebdc3bc04e4caint,
        0x3c75c934e62ed879f45796dc65c2e220e89f0acdc6c6f977bb04cabfeefc9d56int,
    );
    let k = lemma_leads_double(
        k,
        p,
        0x48ee928b7379c6c94778829a9aa24bb5f63fb69d4be0386e13daf7589c0fb0c7int,
        0x138bdfb66dc66e72bd5b884761001a4b37c934ee31b4b60ab1eebdc3bc04e4caint,
        0xf3053226903bb6dacfc2acd5102bdc7183bf033d615613a3ac1eda74b6a260c3int,
        -0x1938dc7641296bb04adfeab540fa2ae156a7c47e4bf1afbeba9e2e1ab6875bacint,
        0xf70eafc80009fd0aeca2602bd2a5c848f03af8a4cbf3310fba8285498d14a951int,
        0xe6b2dd511bd8f2ef3688c5170636e28a85ac2dd92a5b7b429a455eaee5d53656int,
        0x1c315fbaa40f5802de9c0727595ebec56206ed88ce3e7de21b28fd207c09b787int,
        -0xa54c047e317c7f7868b828e5590bc7fa96162c66bda6a3a604289bd2f0a05291int,
    );
    let k = lemma_leads_double(
        k,
        p,
        0xf70eafc80009fd0aeca2602bd2a5c848f03af8a4cbf3310fba8285498d14a951int,
        0x1c315fbaa40f5802de9c0727595ebec56206ed88ce3e7de21b28fd207c09b787int,
        0x31f3958d0f3dbd7bed040cf4cce518631539eaada6d39faf18c4f5491428096int,
        -0x2ca97ff5096e6038131259526ad43303d2bd62cf295fbc303c08a5c7c4699ef54int,
        0x9f07b285e584f547e635e00cc1b87feade394837e760e44d0e0d1aa82659f2a2int,
        0x9bf27054abd3a3c147add5f458b32fa432de91dd1f106c194c7dac694ed60int,
        0x1db532ead4e6d6467a7a485c17eebab03b3b9f965c1bc071b3acae30075617aint,
        0x112d1888b07e55cc58985a73cc3a27794075b3a4a17d44c91226a0bb7a28e77int,
    );
    let k = lemma_leads_previous(
        k,
        p,
        0x9f07b285e584f547e635e00cc1b87feade394837e760e44d0e0d1aa82659f2a2int,
        0x1db532ead4e6d6467a7a485c17eebab03b3b9f965c1bc071b3acae30075617aint,
        0x6b17d1f2e12c4247f8bce6e563a440f277037d812deb33a0f4a13945d898c296int,
        0xb01cbd1c01e58065711814b583f061e9d431cca994cea1313449bf97c840ae0aint,
        0xb97bcbf7aedf4947885841a27a61cb41cb81d48d2951362ae4211da362d49c0cint,
        -0x25a176ecc16940a78e20942a8e63b1a03a43937492c076986b5f474977ef22e0int,
        0x2552a412d5eefc8dd01821b84da8475fcdd15eb36154a7dcdb232e49d701bb77int,
        0x866428aa23a7aa1c739b39c1464e39bcf38de26b0fd7de6a16789ae3d2f5d01fint,
        0x2e96213756b6132b2e5615114f7355338af66fb856dccf450bfb52e8edb9e4d9int,
        0x582eb267c303f5f4ca2266a2f91a3a9ff7154251a58d873673c617794ed27c4fint,
    );
    let k = lemma_leads_double(
        k,
        p,
        0x2552a412d5eefc8dd01821b84da8475fcdd15eb36154a7dcdb232e49d701bb77int,
        0x2e96213756b6132b2e5615114f7355338af66fb856dccf450bfb52e8edb9e4d9int,
        0x680225869b890aaa7fade33f923a1dae04d82efc3010f0bbdf1abccd22dad2f6int,
        0x1587c8ad0f08b41acdbeee021388103d6ad15c39bd7a76d4b19dc9ad64535ee4int,
        0x59b4c82d6b2e7f0ae124a8f0a33f4a1f52dadc1c8018267e7e741dcd3aad77d1int,
        0x2a41be82243bb50d7b6ced935a43fd313867d0542521c34689b4714f97e06a5bint,
        0xd39660160381845e6eb45440701bd62d72951ac3ee88c2440d070f2c2225c231int,
        -0x15484f1ce4897aab138f60b99ff3c4f09f2fbd280c025cc5b3a21291eff3867aint,
    );
    let k = lemma_leads_double(
        k,
        p,
        0x59b4c82d6b2e7f0ae124a8f0a33f4a1f52dadc1c8018267e7e741dcd3aad77d1int,
        0xd39660160381845e6eb45440701bd62d72951ac3ee88c2440d070f2c2225c231int,
        0xc013308a652d79ae6cb3bc05ab034834341e5c8606b5f7de83046bb0719fbf74int,
        0xdf33b0243e5e010b793f38efd606ac6409937aab3c215cb50fad9705d0cecf78int,
        0x2e52d2b4b95d466e949a342bd5da9629a604d5c709d4a3d23e2ff1feac396026int,
        0x901cca4065a03647d31aaba6120dfd8d4ca5d3586c6108188f578b65584e0338int,
        0xb8c3963b1e880cdcf974053381b6e73ee1a93416d471ef2dfd0dcfde5f4d7b50int,
        0x208cb899afd924acb2193ea451a32b4c028d11d343d45d0156f5720c28faef05int,
    );
    let k = lemma_leads_double(
        k,
        p,
        0x2e52d2b4b95d466e949a342bd5da9629a604d5c709d4a3d23e2ff1feac396026int,
        0xb8c3963b1e880cdcf974053381b6e73ee1a93416d471ef2dfd0dcfde5f4d7b50int,
        0x2f4d9cf0ce71c87cb54553acabd9fb072ed4f211cfe1e6451735b1e58f3bdd64int,
        0x2b223dce644581fc4c14becd3c73998b767eb2050864a260f92e67849cc91a69int,
        0xe291177aeb4b25bd7c9bba9368494265f87107a3c8940b20cf67fd0a943c4c55int,
        0x8bd97283d9ded5702a00e9830c9939ce799cddecdf6fc614efd94ca69213d91int,
        0x50a8da368285ed306028cd0f79a95baa5250c72805bcb106d46638c3c2b8a754int,
        -0x214e13dab1b93c9e46031945f8b5f702faf63a6ef345201832217fc7071c0800int,
    );
}

/// A multiple of the generator, step by step.
proof fn multiple_17()
    ensures
        leads(
            0x7fffffff800000007fffffffffffffffde8nat,
            0xbcc3562eddb2c314a833b87f9289661357110ee84114da6b1c00d771d91dc490int,
            0x4bafeea723cc2e038d56e55bfaad067289f55165ebe175cd1e0f0dc138d5391eint,
        ),
{
    let p = 0xffffffff00000001000000000000000000000000ffffffffffffffffffffffffint;
    multiple_16();
    let k = 0x1fffffffe00000001ffffffffffffffff8nat;
    let k = lemma_leads_double(
        k,
        p,
        0xe291177aeb4b25bd7c9bba9368494265f87107a3c8940b20cf67fd0a943c4c55int,
        0x50a8da368285ed306028cd0f79a95baa5250c72805bcb106d46638c3c2b8a754int,
        0xc93a881b0672ffb3fc7284049dc7ad842a3b5b17ac88e348306823ac9d78fd33int,
        -0x1dabf7622da11503ecd8979efb99305d2f895e51818059a61a7f72acc033ef6d0int,
        0x71dbf8cad52fa42e22f9a75efcae08f248e46f3ce2138bcb4ce548c9c673665eint,
        0x9e2cf71d02e9327570d1366197ba1522b131975503aecaa90197749806ae26dfint,
        0x4b994163c60aa8de2e4c9bfcb8aad2376b2a43f0a1443777a2d5bf0f5adafcc6int,
        0x5897fa0dac173d469f5db22c5973dcf30bce2a0c896ec3c997b611624c80b8e5int,
    );
    let k = lemma_leads_previous(
        k,
        p,
        0x71dbf8cad52fa42e22f9a75efcae08f248e46f3ce2138bcb4ce548c9c673665eint,
        0x4b994163c60aa8de2e4c9bfcb8aad2376b2a43f0a1443777a2d5bf0f5adafcc6int,
        0x6b17d1f2e12c4247f8bce6e563a440f277037d812deb33a0f4a13945d898c296int,
        0xb01cbd1c01e58065711814b583f061e9d431cca994cea1313449bf97c840ae0aint,
        0xce5b3a57f73d725eea0b164122f890acab27c67234b204b3d15474d2e06ed38int,
        -0x57440865e91b86b86a635e7b08776d72288fd523c3f3b5c5dedfb25a7652fcint,
        0x93becc886afa689b744c94012578f800ae1d6295f677f50152c2e260f030bf32int,
        0xa656f268c0139669fc3f3fb6d856ccd4e342c375d4f4a16913235074cc2be6int,
        0xc774fe5cff4e0a9249880360266b0e24cd2fe71db9f3468abb5c348134beff03int,
        -0x1b5099bcf706e8ba70aec5d995d6dfaebfc95174dd05619901dfd8fd6c651d7int,
    );
    let k = lemma_leads_double(
        k,
        p,
        0x93becc886afa689b744c94012578f800ae1d6295f677f50152c2e260f030bf32int,
        0xc774fe5cff4e0a9249880360266b0e24cd2fe71db9f3468abb5c348134beff03int,
        0x674be996a79b1ffa91230f8457289247595753941f964900da839dfeaa64d097int,
        -0x5ed798117fe9b1d40ae6d530eb335e840513dcb32dd1da1dce1f262bc96ac441int,
        0x2ad8057e55c876bcc9fab533b74a82cfc775bc8cd4336d0567836c9dd4783636int,
        0x29ae2c7a17f6cadb839f36f58f715c6ce5d3a21270e0c8432d2e02ff88ebfb89int,
        0x6b967ec9bef09bd25808c29eb1a2ba1a1b38abf1db5708be6f61568291440336int,
        0x2a53f5694fde2d3b2e9487043aba00177917d20e2467b1e5e9f2b953a26d7595int,
    );
    let k = lemma_leads_double(
        k,
        p,
        0x2ad8057e55c876bcc9fab533b74a82cfc775bc8cd4336d0567836c9dd4783636int,
        0x6b967ec9bef09bd25808c29eb1a2ba1a1b38abf1db5708be6f61568291440336int,
        0xee5e7e6600de627f082365e48c6f6688ca2c9ead6d077753c293089bd937b41eint,
        0xb2d8783ea3207a6045fc78db07f4c0ea23b762abf619a916c6f742784ca7c981int,
        0xea071d57a6e452bde848b0d819a52190d80b53fba3a09a2e38e5788b85099bb2int,
        0xddf3d5e798e289dadd86c9d35c544f749aa932362a52c55a7872d9f96e5bd49aint,
        0x18303c1eaee5b4645d0746417b41f1fb3d66c55709a0727e55b7fcb87dd40ac2int,
        -0xb20459dcd85e9387945853e86b300632f7c44ced837faa8d04e1a66d1adedd80int,
    );
    let k = lemma_leads_next(
        k,
        p,
        0xea071d57a6e452bde848b0d819a52190d80b53fba3a09a2e38e5788b85099bb2int,
        0x18303c1eaee5b4645d0746417b41f1fb3d66c55709a0727e55b7fcb87dd40ac2int,
        0x6b17d1f2e12c4247f8bce6e563a440f277037d812deb33a0f4a13945d898c296int,
        0x4fe342e2fe1a7f9b8ee7eb4a7c0f9e162bce33576b315ececbb6406837bf51f5int,
        0x373d4c333ce2ceeed8bfb1c5c322c1643ee0622651b5110f03a3d647da8f469eint,
        -0x1b63ce002b1ff1b284c55e70ba0cbb4eb8b9d97abd5c6a5158349779de6d1185int,
        0x26eda69bf7a2315eaf6417046f36e17e26da96b8e18d3db140080fdd6cc2e330int,
        0xbeb656b772e54d4a5eff6f5095da1e8d59650a4f585e54e4c391995ba6677f4int,
        0x8447f71788857dba1dff9051a19698796509a5a96e826351818b53851621214dint,
        0x2a192fa6633259028142f51ea45d6b64848aa597ceceba6d1f7179797d3dbfd3int,
    );
    let k = lemma_leads_double(
        k,
        p,
        0x26eda69bf7a2315eaf6417046f36e17e26da96b8e18d3db140080fdd6cc2e330int,
        0x8447f71788857dba1dff9051a19698796509a5a96e826351818b53851621214dint,
        0x9c51917ebf299f889a4a60b8fbe795bd7e95b1e228af3fd9f4b02543f26861beint,
        0x8fc9c2cf792d3b8abb96646e352507375335fa642d7ced58ec078c484420b2b1int,
        0xb87cc30d3af8b08160d01f6ec0629f8482ec10b28f4808d03bf5556479ad7a49int,
        0x5f7383503d54096330cdbb1811bb7ce89804be53329c4c233257dc508b81b7a5int,
        0xd21b83fe89502d73b3a19b97c567baa05613bb32967af3dbe571a614b8a27e95int,
        -0x58e196577dfe31eb4396f5a1ae7cfa2a6165c60ed53e1a8dd0121597b3b7c290int,
    );
    let k = lemma_leads_double(
        k,
        p,
        0xb87cc30d3af8b08160d01f6ec0629f8482ec10b28f4808d03bf5556479ad7a49int,
        0xd21b83fe89502d73b3a19b97c567baa05613bb32967af3dbe571a614b8a27e95int,
        0xb9ae35e128e79b0fb8380b9f2479bc17ef6b7a7f20b6d197d2c8bcc0e99b7806int,
        -0x5e1104f3bc09a00d8a4fcbe88deefc753c22b2ef83c7852365ccea32f77ca48cint,
        0x6ef542e2545632ccc7b7261a38724390d3120e907124464c1a899801197915ffint,
        0x86ad406d3d369a590c050ccec30c4f7633472946ffeef8879a6b0ae4914a6a6dint,
        0x2ab5cb77d2aaa084de60ea2864b9f4fe5282374e68b9ea8cc89050d1a6025c50int,
        0x3554f5320c895dc40ca1dcab3b2ab279d41eb638c2f05a02983872f97b99d129int,
    );
    let k = lemma_leads_double(
        k,
        p,
        0x6ef542e2545632ccc7b7261a38724390d3120e907124464c1a899801197915ffint,
        0x2ab5cb77d2aaa084de60ea2864b9f4fe5282374e68b9ea8cc89050d1a6025c50int,
        0xa27c68f4b474e31e759b15cc347692181895b9fa84e85a91b39cc301a685deaeint,
        -0x5a0f78b500c286b3589eeef6cd82eaddc6bb428afda9fff3100a0d069d9ac0c0int,
        0xbcc3562eddb2c314a833b87f9289661357110ee84114da6b1c00d771d91dc490int,
        0x6721b14bf39c2e819562f968d5d2d9f3597dec8cc65721a5ee69534d4191b24aint,
        0x4bafeea723cc2e038d56e55bfaad067289f55165ebe175cd1e0f0dc138d5391eint,
        -0x316237ee107b3ccb511412ed97f6cccac5132ee9e7d10f40ab7e414858830604int,
    );
}

/// A multiple of the generator, step by step.
proof fn multiple_18()
    ensures
        leads(
            0xffffffff00000000ffffffffffffffffbce7nat,
            0xac5257c66e490f9ae64402fcc0b3d6756913f25db6c749e1254b43487b9ed0bdint,
            0x4a64f80bd45b8a405a1308f83b630fde7e70845b971abd5d2974c1900bbde229int,
        ),
{
    let p = 0xffffffff00000001000000000000000000000000ffffffffffffffffffffffffint;
    multiple_17();
    let k = 0x7fffffff800000007fffffffffffffffde8nat;
    let k = lemma_leads_previous(
        k,
        p,
        0xbcc3562eddb2c314a833b87f9289661357110ee84114da6b1c00d771d91dc490int,
        0x4bafeea723cc2e038d56e55bfaad067289f55165ebe175cd1e0f0dc138d5391eint,
        0x6b17d1f2e12c4247f8bce6e563a440f277037d812deb33a0f4a13945d898c296int,
        0xb01cbd1c01e58065711814b583f061e9d431cca994cea1313449bf97c840ae0aint,
        0xe780342a011707273edb3254ef9b1bc892845f587efc57ac5d77f0c62873947int,
        -0x49daaab8c60f3189a847a6057fce2447c0ca0ef2518d61d65745539ef6a54beint,
        0xf4cb17fb0f71f3ba8968eb52b42ab5dab57d98871e1ff8f126eb04c40384d64fint,
        0xd1589e58d3f25b9db3bfa7d6c14405ea58cb86fc0541ac2edd758be388abc4int,
        0x8fd1eab70c0e9481787f2b7de03748fdb590f56744727679dacfb803391fa053int,
        -0x32ab0f2b1e87cb48ef0b31f5aa48e8f51ab878cd4bd1d25807bf5e75ec8b396int,
    );
    let k = lemma_leads_double(
        k,
        p,
        0xf4cb17fb0f71f3ba8968eb52b42ab5dab57d98871e1ff8f126eb04c40384d64fint,
        0x8fd1eab70c0e9481787f2b7de03748fdb590f56744727679dacfb803391fa053int,
        0xaf4aebf985cfa16ba0a6d619d9a6e023514f5bb08c62d76b0420577c88407f52int,
        -0x1f946271d22e78da701202270bc0cbd3ce4f049b6b8108b77dcbbf08ba6348a0cint,
        0x34c6411818e018562416ce796c0fa0880996e88a226a373ac70233a6ca5b4929int,
        0x7807848ce2bece27a8c94536fcf21b719b6909f016d2094692ce9237c9127f83int,
        0x3194ec77203b8f7bdf664e910439b090cd4d698684609c75515fa72159c036daint,
        0x837b814b61fa182914546ede7832ab19bbbb40eee61ef6c71a5a3ea52d0ac701int,
    );
    let k = lemma_leads_double(
        k,
        p,
        0x34c6411818e018562416ce796c0fa0880996e88a226a373ac70233a6ca5b4929int,
        0x3194ec77203b8f7bdf664e910439b090cd4d698684609c75515fa72159c036daint,
        0xad5555a05bce9b2281eabcab4e0aaaf83beca658b0c6b730bf3e204f948e8da0int,
        0x2280e9b98a1f1f17924c33c50cb6b95838d371749d2d7dc0920263c68da28530int,
        0xf59cab9c200cd1032b9b790626393051bf4023eb730f6ad1dd44a5aa650fed5int,
        0x755c722d2a92887673eafd9af33311249de96bb4fa48dee0a8c025c5cf2ded27int,
        0x642690bc9f44eb280f0f50e38538f831b4fdc996d43e304618af9f66f6a9fca1int,
        0x1956c5859be1935eb44936078b35596668c7a2ce7c3524f8e1fd267e54737afbint,
    );
    let k = lemma_leads_next(
        k,
        p,
        0xf59cab9c200cd1032b9b790626393051bf4023eb730f6ad1dd44a5aa650fed5int,
        0x642690bc9f44eb280f0f50e38538f831b4fdc996d43e304618af9f66f6a9fca1int,
        0x6b17d1f2e12c4247f8bce6e563a440f277037d812deb33a0f4a13945d898c296int,
        0x4fe342e2fe1a7f9b8ee7eb4a7c0f9e162bce33576b315ececbb6406837bf51f5int,
        0xb243199fe49f5c091f241dd5f73074d6f9defcbf4f4c92720719ed4f8bc9c6aint,
        0x3fe22cf0b72af7c772ace172d931bc89f8dbc5332ae8b5f1cb5b4cffa58ab6aint,
        0x34d0da9dc93452e3c2280be72bb84a2c8392cfe8028071bf11d39fbdbe994933int,
        0x7c216139425147248c5ec6dde460b25952e2f2ddb82deed39141cac241aebaint,
        0x1c5c71f6c037428131b6a71b0cd07a93a1e97f47b7b7b8e43b08cd92ad5427e1int,
        -0x1a169af5d6bbd065724ecf2fd70fcd3f152abcb67a7e3e90af85e3893b9c892int,
    );
    let k = lemma_leads_double(
        k,
        p,
        0x34d0da9dc93452e3c2280be72bb84a2c8392cfe8028071bf11d39fbdbe994933int,
        0x1c5c71f6c037428131b6a71b0cd07a93a1e97f47b7b7b8e43b08cd92ad5427e1int,
        0x4f9b3dcba0acf0c1d8abffbcefb58ed9f156172e5cfbca860d1269d97086babeint,
        -0xf0d15a2d597fa99b2929a2410791c47e25444e34da00a3ad04f92cd5abdc584int,
        0xdfc20ba325b7ba258b6b6c8c72a7799bb76ef74de9a24a3a1f0c149e57957397int,
        0x18c12e47a96b28d560fb592250b25409da5a641a9e8a3de838ecb7af8da760f9int,
        0xd4f2392df6dd7fab1818a217c85872b3b8f3c70e4fcf1d7bca558ce20da5c22dint,
        -0x3528176cfc2e07991ca9c4bf676aca30fde63c0c26079ea68b265e6492b9f7baint,
    );
    let k = lemma_leads_double(
        k,
        p,
        0xdfc20ba325b7ba258b6b6c8c72a7799bb76ef74de9a24a3a1f0c149e57957397int,
        0xd4f2392df6dd7fab1818a217c85872b3b8f3c70e4fcf1d7bca558ce20da5c22dint,
        0x6dea7184272f86133d335e471117e0d969d6372b15bf0842745292bd7c605513int,
        -0x193de9db9d4b05341989e6acfbc1f110b11a01f44ca035bf0ee184ae02767ab7eint,
        0xbea5b94e34e3923e35227b9545c29ce6576fcb7fed3253e04486404c9a930bddint,
        0x2f317b5e707d853c21f46d996412b8f85915788f7ae8319a06bda8d0f73853a2int,
        0xd7a9bf35994b19951e85dcc98307cbd882b07b8c8e9a6ca72531bb097da81c16int,
        0xe3761a0126940b92ecafc960642189629d17b14e6691904a662aea1b9ef6975int,
    );
    let k = lemma_leads_double(
        k,
        p,
        0xbea5b94e34e3923e35227b9545c29ce6576fcb7fed3253e04486404c9a930bddint,
        0xd7a9bf35994b19951e85dcc98307cbd882b07b8c8e9a6ca72531bb097da81c16int,
        0xa2ef83f07ba7f08de49ff3f13e7b737dbba4d9dcda145e03a91454516046ddbaint,
        -0x9768dbca455e7396b20d490400b3056eabf148bf8975eb4e1d14d1cd27be95a0int,
        0x93379018a25174d1672e97254e019a5ca106265db7a937fbdf6b545d50af6889int,
        0x67b40314633b7390b0a1d53f915bed0ecb34d48c1ee5f8819cd83b590412d51fint,
        0x259a1906cddbf875f7e9a438bdf757956e4aa9d2e772dbfe7867a3017e0e67bfint,
        0x1ba4584ea6c01d0a0485a2425bdc99a83e04a8dcf5612209620a90539f5a54cdint,
    );
    let k = lemma_leads_previous(
        k,
        p,
        0x93379018a25174d1672e97254e019a5ca106265db7a937fbdf6b545d50af6889int,
        0x259a1906cddbf875f7e9a438bdf757956e4aa9d2e772dbfe7867a3017e0e67bfint,
        0x6b17d1f2e12c4247f8bce6e563a440f277037d812deb33a0f4a13945d898c296int,
        0xb01cbd1c01e58065711814b583f061e9d431cca994cea1313449bf97c840ae0aint,
        0x96bb79865975b582b7f5c69ce6e4c6e61981dea2dd72bf2a9dd4fe6f19602d95int,
        -0x179ffba62be2b98c29841d17191576dc73dcd340cdec0874a37cb194df536c46int,
        0xac5257c66e490f9ae64402fcc0b3d6756913f25db6c749e1254b43487b9ed0bdint,
        0x58c03bb48d8d25739d6c54a250cffea67195ded34011c4d3da30b0ac53094323int,
        0x4a64f80bd45b8a405a1308f83b630fde7e70845b971abd5d2974c1900bbde229int,
        -0xec8137a956aaae0e3360f0fd58b4810c02579fb1d976a58702af4823c0aebd4int,
    );
}

/// A multiple of the generator, step by step.
proof fn multiple_19()
    ensures
        leads(
            0x7fffffff800000007fffffffffffffffde737enat,
            0x4f3ae756a3ce1402be203d0875d24be42cc3e947c6ba404701161cf712bb9bacint,
            0xcd42e6a05afd8c6a4819994e954bb5ae8d87b0d581151c126eb944b485c6908eint,
        ),
{
    let p = 0xffffffff00000001000000000000000000000000ffffffffffffffffffffffffint;
    multiple_18();
    let k = 0xffffffff00000000ffffffffffffffffbce7nat;
    let k = lemma_leads_double(
        k,
        p,
        0xac5257c66e490f9ae64402fcc0b3d6756913f25db6c749e1254b43487b9ed0bdint,
        0x4a64f80bd45b8a405a1308f83b630fde7e70845b971abd5d2974c1900bbde229int,
        0x5c5bca7884fb48cd2047ebd2f3775e188741ddd03981d460b046946c7c38a40int,
        -0x158a162926d1645c48a85ae76e776b94075e49671d0013fb8b04f77b90abc45e8int,
        0x1e168699b3b6879b3bbe1bb8a062fa79eb3da524530c15e8ad0ecdbe4c53a5bcint,
        0x21521a7052b7ac02e1fa472efa0afa6665c40cfdac5f3ce36ba303db683736int,
        0x3c27257dc05e74b766db2581ec6a67e375f1f513ad1bfbc52c967069d65fdac8int,
        0x33507eedca3d4706d5cf020cd4eb4bb821a99a13eb78c4d4256b1fa016172b1int,
    );
    let k = lemma_leads_double(
        k,
        p,
        0x1e168699b3b6879b3bbe1bb8a062fa79eb3da524530c15e8ad0ecdbe4c53a5bcint,
        0x3c27257dc05e74b766db2581ec6a67e375f1f513ad1bfbc52c967069d65fdac8int,
        0xfde6f471b8bf1468f3ef182ed4ba9cba68f628abe10add4d3a3c85f3a054ce8cint,
        0x6cb60cbc1bd27c0cb35c1aa657c664c7a0385ebbc826aa1604d1b18f396a7b6dint,
        0x1994f7a227bb791aa0ca569d5cb655eb1cab00b41a553099e3e3f3b561745592int,
        0xfbd24f85e8bcefe5e892d9697885e4270808545a30eac2691859db22c796047aint,
        0xcee27dfb1fee6b9d4cfe25d65c5b26076efd10fa6ff8141da1635b9cffd16091int,
        0x4781afe98eb845a582c02f2acf420ceca332eada1afdcf7ece7d4e823c79861int,
    );
    let k = lemma_leads_double(
        k,
        p,
        0x1994f7a227bb791aa0ca569d5cb655eb1cab00b41a553099e3e3f3b561745592int,
        0xcee27dfb1fee6b9d4cfe25d65c5b26076efd10fa6ff8141da1635b9cffd16091int,
        0xac8641eb2e98c496715985c39d898462a9ab59308e4c41b6cc0cd288ef139f2eint,
        0x10f2e0bcabbb861d3524c139aff880c86d9d68117d8c90129cff742d9ce0603adint,
        0xb0b47cbc32aa43c5abbf7ee8d35893dbd86df4f2a87540c9a6708a6371cc545dint,
        0x7444aefd8e1004cd3862deda396ef7667cdc0fcfc4114f921ca234354ce6d33dint,
        0x69651b5fa7e2e146e93bc01270476fd07438b24f8f560501d0b8aac17013796dint,
        -0x65d86ed7670f3c5d537bd037f18eb9d786800a321ab63afe03978af48afa4888int,
    );
    let k = lemma_leads_double(
        k,
        p,
        0xb0b47cbc32aa43c5abbf7ee8d35893dbd86df4f2a87540c9a6708a6371cc545dint,
        0x69651b5fa7e2e146e93bc01270476fd07438b24f8f560501d0b8aac17013796dint,
        0xa8a36021ce348096cf87a37cef42efbece54c0aba78dffcc039366bc31b92e9aint,
        -0xe30ec67211cb1c6ef0bbd105ac71587cdd5b6d69de891b26a9b6fd3f128bc5ccint,
        0x506162dd478f303a937a2efbd3556929f11a316c1ae9c1744f8d94d256b57010int,
        0x6f16d6705ce1b52fce4bf84c0bfa6942d7076cab71b13ddbd8cb159de33e6426int,
        0x758aa0ceacb6bc50b43ee567febf424e0b137b53e1c528406c3daa261f1df3e6int,
        0x3f74020fe4ae071bc2b808506ab0155da929410190ca68c1f1453cf56dc14101int,
    );
    let k = lemma_leads_double(
        k,
        p,
        0x506162dd478f303a937a2efbd3556929f11a316c1ae9c1744f8d94d256b57010int,
        0x758aa0ceacb6bc50b43ee567febf424e0b137b53e1c528406c3daa261f1df3e6int,
        0xf9aff106e25d2c8ecc87ba590eac4b975ad6e6162db71c2402d1c26d8220923aint,
        0x9992352cb97927a703dab6e15194025077c11d54ddbee7ea10d9349461c526c5int,
        0x19e4e183b4b13113becb1377328317328ecd55ca60ab7d6fafae11ca9769773aint,
        0xf387bbcbc2386e3e5637f4e34426d0a6a0a06cbaa9ec0c7f3493b5637ace2236int,
        0x41d37e6f038ccaa7ebb518c10e7cd8ea9e9a33bc498f94ca0b98b66d064bcfb1int,
        0x35248c396e17f96bb3ca4104845039a8bac25ee96b8260029dbaa8beb389571bint,
    );
    let k = lemma_leads_double(
        k,
        p,
        0x19e4e183b4b13113becb1377328317328ecd55ca60ab7d6fafae11ca9769773aint,
        0x41d37e6f038ccaa7ebb518c10e7cd8ea9e9a33bc498f94ca0b98b66d064bcfb1int,
        0x4cd7a986012b570b6caa53613e566d02b2400633c1e50e38aae7b261f36c37e0int,
        0x1fa8f973f785ac3301625794aa1749e314bfc8598648b81b1ebb7901780f67a9int,
        0xbbf15f38dad88b3e85fda2f6a7b78f280f9e0eca91799b2f411a37dd236cddcaint,
        0x1710c255d71aa881300d213839fac6f42b49c769c63e408f6d09e3dfe10dc83eint,
        0x2376c34a84a2c7fade25b70a2ae3b490557272649cccf10c70123b203a98fc06int,
        -0x30a4391e9d5ed1a21988f34a50d67fd671543ff9a1b60d79c84179c98c588649int,
    );
    let k = lemma_leads_previous(
        k,
        p,
        0xbbf15f38dad88b3e85fda2f6a7b78f280f9e0eca91799b2f411a37dd236cddcaint,
        0x2376c34a84a2c7fade25b70a2ae3b490557272649cccf10c70123b203a98fc06int,
        0x6b17d1f2e12c4247f8bce6e563a440f277037d812deb33a0f4a13945d898c296int,
        0xb01cbd1c01e58065711814b583f061e9d431cca994cea1313449bf97c840ae0aint,
        0xc096c06fbc4b3b55209f7c34c9071fc6325c997b22b7de7eb9f5381efd6e4063int,
        -0x3cd2c633f2d48ab0a5c8e626390272a53c582f0c456af2c4b7cfde33672cc8e0int,
        0xd12c67de3be2214cad4154ace556c64c9f563d14cd845876b18dd9bb748e9050int,
        0x90e2796e3eebc5cc93767b956e199254e5c92ddd4144111bf6e5c8eb5d4e8a67int,
        0xc68f99e8cf87cc5e1495b66df86fcc1c480c27fb0b4c0d908dd97693c8faa518int,
        -0xff8c708b459333e17d3f011ca8e9024165592b9e50eaef9c7f1bb6d0c2ed510int,
    );
    let k = lemma_leads_double(
        k,
        p,
        0xd12c67de3be2214cad4154ace556c64c9f563d14cd845876b18dd9bb748e9050int,
        0xc68f99e8cf87cc5e1495b66df86fcc1c480c27fb0b4c0d908dd97693c8faa518int,
        0xf0220ef4c024c40dd8d00b572d94878d2cd3ad5f95d68d4a4af8f6faf75a724bint,
        -0x8c3a85f9f992ac79fbebf2e3769af275ad1fb8c6aa0f28f503b8c220a477d113int,
        0x4f3ae756a3ce1402be203d0875d24be42cc3e947c6ba404701161cf712bb9bacint,
        0xe13fe093c36788f3c819be5f0a6636775cd1195ed0a76d1db792c970b215da53int,
        0xcd42e6a05afd8c6a4819994e954bb5ae8d87b0d581151c126eb944b485c6908eint,
        0x79e3b22a1b3666b67403552f3c2d070280d836fe98b56d967a098bd3775a819aint,
    );
}

/// A multiple of the generator, step by step.
proof fn multiple_20()
    ensures
        leads(
            0xffffffff00000000ffffffffffffffffbce6fabnat,
            0xd0bf2639f0a30109ef71113e568654c68e1f8e3555a66e3c2bda91fa5ab526d6int,
            0xa687375b89f41a9828034b27d7fdbd5f2e672249daecb1111e8c701a96f920a2int,
        ),
{
    let p = 0xffffffff00000001000000000000000000000000ffffffffffffffffffffffffint;
    multiple_19();
    let k = 0x7fffffff800000007fffffffffffffffde737enat;
    let k = lemma_leads_double(
        k,
        p,
        0x4f3ae756a3ce1402be203d0875d24be42cc3e947c6ba404701161cf712bb9bacint,
        0xcd42e6a05afd8c6a4819994e954bb5ae8d87b0d581151c126eb944b485c6908eint,
        0xe4922d5846656857c33bd1c038c9a3ffe346ad01fbd9af8f05832fface530157int,
        0x124f95ad591b0409cf65c6cf4269edd28f3f454954d3412f569fdef5e35a9d629int,
        0xd6c413e94ecedad413f0e4dd9c9fb21bf9585fb539f9d38c3b26b1aecf7f66fbint,
        0xcc14b43dca31c8f475bc86c50f5ca8ace751fb9dfba36e6d5d62aa9f128ad2c2int,
        0x4b17f58f5d800246fefc7563fe35bb031d05284c0e91ecd6872d0f5913f70a12int,
        -0x79038ff05e38147a85f300a8bf8f9a2e266e8cb10d7a85e94e759c89ff4ffe87int,
    );
    let k = lemma_leads_previous(
        k,
        p,
        0xd6c413e94ecedad413f0e4dd9c9fb21bf9585fb539f9d38c3b26b1aecf7f66fbint,
        0x4b17f58f5d800246fefc7563fe35bb031d05284c0e91ecd6872d0f5913f70a12int,
        0x6b17d1f2e12c4247f8bce6e563a440f277037d812deb33a0f4a13945d898c296int,
        0xb01cbd1c01e58065711814b583f061e9d431cca994cea1313449bf97c840ae0aint,
        0x7202c7affc7a50bd711145abf2fa229cfb4fdbda1d739a1de9c41cffd56e1d91int,
        -0x2ff3e0b55cebcd929e9ccafe100618e53b8513c3f1fff4a63c116dd7a60dcdd3int,
        0x7eeeefac08056b7251d50624f34aa4f1780de5c0478313f96c4c6da177bdf92int,
        0x32c679e0aa266f33c4cb0dd4ca4a7eb052ce823a0e07d8c894bda660098ddd02int,
        0x230b1a0ef4f7f0ab4a67c3b7b2fc98828459fb043c77e539c85653e858bcb763int,
        0x5c1d2972c0bf8fc0b79b3f4fedc8a095afdf4bd040ef53b74c39e927403f29fcint,
    );
    let k = lemma_leads_double(
        k,
        p,
        0x7eeeefac08056b7251d50624f34aa4f1780de5c0478313f96c4c6da177bdf92int,
        0x230b1a0ef4f7f0ab4a67c3b7b2fc98828459fb043c77e539c85653e858bcb763int,
        0xd57c3228383fee3bd35d0e7e333622b0b4d3bdcb8adb02d46115c5f1700bab27int,
        0x39b5a9a0e54f74035f2b7bcc138f916e3443ffff413732f5a7c1f1e2f7a2eb9fint,
        0x80c3d2e96df94512854b5c107918e9b73ce83332bc51097d1f0c9cad9b1b0ed0int,
        0xb207e7b8406c84607f78125ffce11cbcc6d7301a18f4a3a08dc3aea9824bae03int,
        0xb4e423b3f1be15d25a75a9c8ca1e9a12c12ea421ef9e1c3e8af74814aeebf099int,
        -0x64c3c070f30a5f35396d9214a72dc2fc12c64d466c8ae1c76df40bfe6edebb92int,
    );
    let k = lemma_leads_double(
        k,
        p,
        0x80c3d2e96df94512854b5c107918e9b73ce83332bc51097d1f0c9cad9b1b0ed0int,
        0xb4e423b3f1be15d25a75a9c8ca1e9a12c12ea421ef9e1c3e8af74814aeebf099int,
        0x7fb02d5ad6b5769931f71f77184dbf760e8efe1d2218b3c9bed2e38f2a20d744int,
        -0xdd9e4e71a3e7ec19eb5b0b9704b0bc448124f1a858771e072006be59386944bint,
        0xd594b0fffa94c6d982438293f3fa5acf5103a2e658952aedc6509da652c26130int,
        0x3fb0463ec5a89b250f8d5c1ac5b0b3e6b613a610ac2b0aef9377f630b2f534c0int,
        0x824813b55f60f8131c062a5fdbb8951db15edf3cb72be69de27d9ac90853e7a3int,
        -0x2a4dfcccd92a905b4ae196dedcb350132966f6ff2b5ab487532f6cc5ee1fa644int,
    );
    let k = lemma_leads_previous(
        k,
        p,
        0xd594b0fffa94c6d982438293f3fa5acf5103a2e658952aedc6509da652c26130int,
        0x824813b55f60f8131c062a5fdbb8951db15edf3cb72be69de27d9ac90853e7a3int,
        0x6b17d1f2e12c4247f8bce6e563a440f277037d812deb33a0f4a13945d898c296int,
        0xb01cbd1c01e58065711814b583f061e9d431cca994cea1313449bf97c840ae0aint,
        0x9c79847a323c07fef93227cc226f7dbe65faf0fa1d91ff0cb47026b0d968576bint,
        -0x4116a40ce12dc0bc4888b76c1d9f369cc757ccf58d9612500a814f211337993bint,
        0x19c5dba61865ff38d58082814ed8e168d17ca7d1f5e140ff6a8ad7a86e8efbaeint,
        0x5fa45323ccef37c38f59a7bec14fa7567d96deba64ea52948dcea8ba0f2038bbint,
        0xe95ffeb91fee34bdbe29e911dec817bbd2d8dfa8a8bce032906eaa5c745413cbint,
        0x72cb2ff65b8a0f315b4d9a86809553ae19b5f789318b0972e61de02d34dd6018int,
    );
    let k = lemma_leads_double(
        k,
        p,
        0x19c5dba61865ff38d58082814ed8e168d17ca7d1f5e140ff6a8ad7a86e8efbaeint,
        0xe95ffeb91fee34bdbe29e911dec817bbd2d8dfa8a8bce032906eaa5c745413cbint,
        0xd7cd460258dbe17f6fafb7235f8b793160e6dc23d1b81ffc9b5ce47c76825e8int,
        0x10ce9e9d3b2c5d6a1afd1bd7d5902c81384e1349c818d22829e6eeae485770d9int,
        0xf8683050e700e5d0769e507916143bb59d8b978ec947363acbf4feeda1ecaaeint,
        0xb5ea7031da135dba1974118602dd59d940ea3e02de835ac3ab8342351fdfcaint,
        0x36e3795620e6ab908849c49fec381fb3c77a186e84b2ce0f18258bbb0ddda7bcint,
        0x8a36af6ab3f3fdb6477e939ade4e2d30835f016871b2c8c03048c9dd705387int,
    );
    let k = lemma_leads_double(
        k,
        p,
        0xf8683050e700e5d0769e507916143bb59d8b978ec947363acbf4feeda1ecaaeint,
        0x36e3795620e6ab908849c49fec381fb3c77a186e84b2ce0f18258bbb0ddda7bcint,
        0xd60ceab94be498101daac78a48bb92f6819a557da91ee10bfb44c7cc1bc5b148int,
        0x58f6babefb0e55b8ac04b67712370bd441d434391d436968286d26bb4dc4d909int,
        0xef0f0345993aeb303d89c6f64559897521b1764eeb7f557be518599a39fe007bint,
        0xb2f999155672299a8375d8e2d19b5ac338617d8044570f8040a332a86aa6f197int,
        0x14de26149e9f45c00c3a1e6e38207901e453cb06535dfc4b57b08ea1c85fd768int,
        -0xbae762914317be196c8327378ebd3b7c2baa8314df146566714d2459d907a234int,
    );
    let k = lemma_leads_previous(
        k,
        p,
        0xef0f0345993aeb303d89c6f64559897521b1764eeb7f557be518599a39fe007bint,
        0x14de26149e9f45c00c3a1e6e38207901e453cb06535dfc4b57b08ea1c85fd768int,
        0x6b17d1f2e12c4247f8bce6e563a440f277037d812deb33a0f4a13945d898c296int,
        0xb01cbd1c01e58065711814b583f061e9d431cca994cea1313449bf97c840ae0aint,
        0xaa00181ea0a7d6c2b8d6504496d275de8e9e35a851015839b5a886780f457f06int,
        -0x57a233303c447c16f7b5ce81976d508233284685b97ad5f391fc207c64521b00int,
        0xd0bf2639f0a30109ef71113e568654c68e1f8e3555a66e3c2bda91fa5ab526d6int,
        0x70e420092088cb0cd18e606797dff35699a601ee86f00d8cbea98f7a0108f5c3int,
        0xa687375b89f41a9828034b27d7fdbd5f2e672249daecb1111e8c701a96f920a2int,
        0x14210ba4ef30b5fc97d7112df2e7322ef1d3653cfa8a9f61033b2a7cab32032cint,
    );
}

/// A multiple of the generator, step by step.
proof fn multiple_21()
    ensures
        leads(
            0x3fffffffc00000003fffffffffffffffef39beab6nat,
            0xc9014bd86cdf69f84321064fd0fd6dc3cce4edf043bd74d1cf8bc20849f75d8int,
            0xe0a133cf99ac66a130f8bfdd4766a8ac076abb94c7e6f85689a302c1ef719d99int,
        ),
{
    let p = 0xffffffff00000001000000000000000000000000ffffffffffffffffffffffffint;
    multiple_20();
    let k = 0xffffffff00000000ffffffffffffffffbce6fabnat;
    let k = lemma_leads_double(
        k,
        p,
        0xd0bf2639f0a30109ef71113e568654c68e1f8e3555a66e3c2bda91fa5ab526d6int,
        0xa687375b89f41a9828034b27d7fdbd5f2e672249daecb1111e8c701a96f920a2int,
        0xeaebe2565498e786f845ee6d0ec7dd6e79bcf4df8b62e0004c5c1b46c5808850int,
        -0xcd03729f69b51111e690eba09b9fbe66e9b2999f24c95a8a7e264a95cadfd497int,
        0xd2c05edc199f11e0092605344bab5c3b8dff5b03759b00adf84e9991186e9d37int,
        0xd794131ffcd77595e0699b079b5efb48cd10d88b5211969b1f193f721543d1e3int,
        0xd13f53b5986c32cc1f011ac52adc2b03821befa46e5b1e9bf45805cbcbd02ee2int,
        -0x1d6f6a8f93ac53769623764168fccf55b11a3761e855d44d263e7d9f6de2a2cint,
    );
    let k = lemma_leads_double(
        k,
        p,
        0xd2c05edc199f11e0092605344bab5c3b8dff5b03759b00adf84e9991186e9d37int,
        0xd13f53b5986c32cc1f011ac52adc2b03821befa46e5b1e9bf45805cbcbd02ee2int,
        0x9961ea94f4a8698e7727df90818947886e5e631e5fbc7bc11129c4c7c12eeb59int,
        -0x10dc2c107ddc076651e2236f38c31327e6531e1a5830caca7bd03fe062699ffb4int,
        0xd2e8be3cdbb603846bbb92e84ec2d5a2eb63aecb77a2a7157e2ff8b5b39795faint,
        0x5be62fda042d8b959e2f47beb4cf3d1f1f1ee6102453ae4879313804461c4b77int,
        0x6db858262adc80a070a6f134712bcc9d6f3f0c5add1c457c0a36ef3a9dcd3be6int,
        -0x183071f66d9c5f68c1bcb482e216882ea0336a07c4f8731ca8ec5452bf186dint,
    );
    let k = lemma_leads_double(
        k,
        p,
        0xd2e8be3cdbb603846bbb92e84ec2d5a2eb63aecb77a2a7157e2ff8b5b39795faint,
        0x6db858262adc80a070a6f134712bcc9d6f3f0c5add1c457c0a36ef3a9dcd3be6int,
        0xb32d34e92e8d64a5cea57e780479690f4c41f4cf32cff51dbb23909133be787aint,
        -0x16fb177b1e9785532eab8713767e308e440c77a59b911d49ed12239d7bad1cecfint,
        0x42ca2186d8d6b1a80cb526b840fd94c452f275366659fc9473b3925b17c250fint,
        0x7d683ffa396be7be34056cd74828e992a49a195191ae07a7267bfea56ee0b6dfint,
        0x3945c9fe7724bf49404699aa7609ee987de87622efef1803d94f8cbb9472c90int,
        0x90b2097980a4c8a7b8b89ee73d879d27fc100d17bd48ee7bc5dfef70d9a87078int,
    );
    let k = lemma_leads_previous(
        k,
        p,
        0x42ca2186d8d6b1a80cb526b840fd94c452f275366659fc9473b3925b17c250fint,
        0x3945c9fe7724bf49404699aa7609ee987de87622efef1803d94f8cbb9472c90int,
        0x6b17d1f2e12c4247f8bce6e563a440f277037d812deb33a0f4a13945d898c296int,
        0xb01cbd1c01e58065711814b583f061e9d431cca994cea1313449bf97c840ae0aint,
        0xb7b274a006f00d968e9ee496ec5d28c49e5b47f8aad291049d52bf94a4326bebint,
        0x49d9dd9f9fdbb7e125389d8ec3094a70dfc22148926d8c93525e7561f17f798dint,
        0x5a17f735833552e096319c4a832185a6fdacf6be175568112f17e0418838d2b0int,
        0x83d09f23b166e2b58b6d5286514e542db608486fa6487a2689c23cc1a503709cint,
        0x6987538b108c45bcb87b72b1ad083bbd3d0734f7b6f78b7eddfecb1da48a951cint,
        -0x3da71e9d8e55a936a4869b2fa352f55af8b5f5526f6a2f3114d3e29e98f69089int,
    );
    let k = lemma_leads_double(
        k,
        p,
        0x5a17f735833552e096319c4a832185a6fdacf6be175568112f17e0418838d2b0int,
        0x6987538b108c45bcb87b72b1ad083bbd3d0734f7b6f78b7eddfecb1da48a951cint,
        0xaaf7c995942e22201475109594191f23bf3d4b4f63b69f5f9684b423b179126dint,
        0x2dd57019f945abefdfc5c5b9c9ad2f94c477b841b3a3a36cd177c84c47bcc125int,
        0xbd29c5913577e2d2fc5b11c6a233d2f343934906003974591ad4a046e1aa465bint,
        0x722e0791b85b7800004fdd97f554face7e6e9551799e1496788f6a3ecbbe6952int,
        0x38d40c9d23954424b4678188e5e52d9763c2352721e6632a606e072a5e5723f8int,
        -0x4229b73a1ebe29139a24d428dfa1ac37e4d6849a51b01dcfd153472d06db011dint,
    );
    let k = lemma_leads_double(
        k,
        p,
        0xbd29c5913577e2d2fc5b11c6a233d2f343934906003974591ad4a046e1aa465bint,
        0x38d40c9d23954424b4678188e5e52d9763c2352721e6632a606e072a5e5723f8int,
        0x7fb01affaf5d0f5eb8e5fd457da10d40bcec18a352476a981882fddf286fb3b0int,
        -0x16aa3898b70351834bb9a8d8e50207eda3e3d33fb5af6daef6a320ef9d69897f8int,
        0xc5a5fd7cdc81f8d46f6b3225db84bd8d18dd62f3ecbebe71c182586f224c3a1eint,
        0x3fb033ef12189821aabf0ad48902ad5698a23a845221aa8c3643937894e12dd4int,
        0xe808b252b68f9bd339761a93209caf1ee16b84bc87c4d862cbbb04912c4b33int,
        -0x43b76097555f0728646796a30229d3807d64d46ad6492959e051ac73a26a1c5int,
    );
    let k = lemma_leads_previous(
        k,
        p,
        0xc5a5fd7cdc81f8d46f6b3225db84bd8d18dd62f3ecbebe71c182586f224c3a1eint,
        0xe808b252b68f9bd339761a93209caf1ee16b84bc87c4d862cbbb04912c4b33int,
        0x6b17d1f2e12c4247f8bce6e563a440f277037d812deb33a0f4a13945d898c296int,
        0xb01cbd1c01e58065711814b583f061e9d431cca994cea1313449bf97c840ae0aint,
        0x7e1e4a7f2ef33843cbed77e41310287065eba83ecfe771d992f8c91891289f3bint,
        -0x2c9cb0714635651d4ac3d9ee5bff450658e327ab9ddf7f68b5a600a3a01198d1int,
        0xd64d712604a2170e57bc199eac942620982282c1b7df628410989fe0d31adb02int,
        0x3e21d4eafbd607a2e4cb14da5e767333b0c956fcd57c21efa474a5b2d285801dint,
        0x374f1e8c2930d5658fabf832fd6e8c3deb7608f58d6846e044744f8dd8e3f8c4int,
        -0x8346365855615f1f219d7582a27f718fde82f120aebaf5104c31e9f38c30b7dint,
    );
    let k = lemma_leads_double(
        k,
        p,
        0xd64d712604a2170e57bc199eac942620982282c1b7df628410989fe0d31adb02int,
        0x374f1e8c2930d5658fabf832fd6e8c3deb7608f58d6846e044744f8dd8e3f8c4int,
        0x4a370ec9fecf54b22643110841d65d9b9a30cfe56c3ab2a83ebd00265554fcdaint,
        -0x1fa1f29c05a4670fe780629973c0841fa990b3041c88c57553c673d90135849c7int,
        0xc9014bd86cdf69f84321064fd0fd6dc3cce4edf043bd74d1cf8bc20849f75d8int,
        0x1583e0643879f1b25217d7e334741fed1161b425f8186680da995f0a7e074238int,
        0xe0a133cf99ac66a130f8bfdd4766a8ac076abb94c7e6f85689a302c1ef719d99int,
        0x3a7c200cd2d70377ea1d79ab71e2fe2596168e089f8759cedc4255fb57e41899int,
    );
}

/// A multiple of the generator, step by step.
proof fn multiple_22()
    ensures
        leads(
            0xffffffff00000000ffffffffffffffffbce6faada8nat,
            0x9f57cb76c78ff02d4e85ef211466af63b25f82f38e1909fbaf265c031764e132int,
            0x193b52b39629ea9d12c98c5b197212db00039b3158cf6ef6b49d1ea74acc3621int,
        ),
{
    let p = 0xffffffff00000001000000000000000000000000ffffffffffffffffffffffffint;
    multiple_21();
    let k = 0x3fffffffc00000003fffffffffffffffef39beab6nat;
    let k = lemma_leads_double(
        k,
        p,
        0xc9014bd86cdf69f84321064fd0fd6dc3cce4edf043bd74d1cf8bc20849f75d8int,
        0xe0a133cf99ac66a130f8bfdd4766a8ac076abb94c7e6f85689a302c1ef719d99int,
        0x26021cd70550e8cdba42f3e607e8d47fc17e9f01548cf8991eb7ea0920d2a1e2int,
        0x40da1767fa8b0597fd06b1e20221699c764bd760cc23911ad64dcc688dd4be99int,
        0xa6ec912d57a582a72bc3788edc9dc3d83ebadd34a7f8c85964ea892c84a495bfint,
        0x5a4a09451d478b8a3a2ee904b2040f9bb63c30069221b66d2ca21c310bd75ebint,
        0xc7a1ff84c5900e4803fff10d9391399c01e960106244d4b07efc96087f94c3a2int,
        -0x16eb00956d47f58278cd4f7f0242ceb5bf0fb20e6f8fcb001ea3e94a47e52dd7int,
    );
    let k = lemma_leads_next(
        k,
        p,
        0xa6ec912d57a582a72bc3788edc9dc3d83ebadd34a7f8c85964ea892c84a495bfint,
        0xc7a1ff84c5900e4803fff10d9391399c01e960106244d4b07efc96087f94c3a2int,
        0x6b17d1f2e12c4247f8bce6e563a440f277037d812deb33a0f4a13945d898c296int,
        0x4fe342e2fe1a7f9b8ee7eb4a7c0f9e162bce33576b315ececbb6406837bf51f5int,
        0x2def9b7a035fca5c5ca4d2629525aa72cd247734826468a96100c57d13b620f3int,
        -0xabc65922d19ba29f20da8052c4048b326370e13a90ee89e62aacf105410e1c2int,
        0xf7282ba39e5db687ecf291b176123a7b5ea6d101464e02b148f236dddbe06bb0int,
        0x83e1cec99ad112a18d9fcc2da390f346cd1a7c92fd34b6aec67438b495c1d5cint,
        0x55201b1614b46074c1bc85f53ce53e9436db7045d0e86840d309e2be62c17606int,
        -0xe659286613beb262de019fdd2d63aadf3bd2f9e8e339de4aa921be3d8c99295int,
    );
    let k = lemma_leads_double(
        k,
        p,
        0xf7282ba39e5db687ecf291b176123a7b5ea6d101464e02b148f236dddbe06bb0int,
        0x55201b1614b46074c1bc85f53ce53e9436db7045d0e86840d309e2be62c17606int,
        0x1687868d0c3c942a86f6a2f6bc2b0b0014da5b25d28de6968dd58ec932777ea8int,
        -0x2bcdff98d28aafc766ac9422af9d3d9f1d501f248d1f4a840aaf0a1e6dbc704e3int,
        0x712882c6f5c608ceff86c68358099492bebb14c41242cf2c12a46fbd41a7fd26int,
        0x1fb92df6f90dac0e80f7c6065b1e3b2b40a412912271933f6deb4685a8f0646int,
        0xebc802f7c048b4c1c55b0bd20a483b3826015fa160bbc02de00a2c5d7b88419aint,
        0xbcae8c2b5400cd966afe73f6d292cd8ca926f72fe6dc4667b4f49a28cb34110int,
    );
    let k = lemma_leads_double(
        k,
        p,
        0x712882c6f5c608ceff86c68358099492bebb14c41242cf2c12a46fbd41a7fd26int,
        0xebc802f7c048b4c1c55b0bd20a483b3826015fa160bbc02de00a2c5d7b88419aint,
        0x2e1d6d99905ca613107ae06ad50b69ee23145b1a91e4afb8a2ca74b9207129a5int,
        -0x411c4751ac374cb4e3ad741c2eb6094892662e993d162f38eada30a6a2e37f9bint,
        0xe391a696c7ac0adf4f72004a60b8a6c7a688173cb829f61f9c85b8e0b62f4d25int,
        0x84e96c53be6b87e73692166063cd041d209c549b4bd6ab6c00263722f0f0318int,
        0x4690b02ac2d58cc655aca1095179d06f7619b6f7b8e05d568687ada93c6409b7int,
        -0x149c0b53e078967ace8ec1f298d84f667226511d82b871bfec0d9f74517e4e54int,
    );
    let k = lemma_leads_next(
        k,
        p,
        0xe391a696c7ac0adf4f72004a60b8a6c7a688173cb829f61f9c85b8e0b62f4d25int,
        0x4690b02ac2d58cc655aca1095179d06f7619b6f7b8e05d568687ada93c6409b7int,
        0x6b17d1f2e12c4247f8bce6e563a440f277037d812deb33a0f4a13945d898c296int,
        0x4fe342e2fe1a7f9b8ee7eb4a7c0f9e162bce33576b315ececbb6406837bf51f5int,
        0x27017d11d4c6232f17f307bcb17cfcdddb5277532c1db5d7a26b069642824801int,
        -0x125b42bac029ea193b65a9461c725ccde4d801d4d0b5b13f500a7f5e9577f533int,
        0xe94529718256d9a267c4642da2ded490ca3ca86d127b40f790d99d67d60fe53aint,
        0x5f1741dac03e769b7421cd28dfa73c8ca42fdafb1bc2fb08fd6b2f4ab9364f4int,
        0x555d584688861fac338557361eb7e5b4bb1d0b64e3ed84717b3552a414df556int,
        -0xde616be2b6b13f24c03e8830a968e2e47f1caa8429f7a22664661d92fd80deint,
    );
    let k = lemma_leads_double(
        k,
        p,
        0xe94529718256d9a267c4642da2ded490ca3ca86d127b40f790d99d67d60fe53aint,
        0x555d584688861fac338557361eb7e5b4bb1d0b64e3ed84717b3552a414df556int,
        0xe7ed2ac716b9238ca020ad0ecaeda589291da236d6727446b8783a9cf49e8c9cint,
        -0x274021e57a9364dc68fab3e130a893a4dd69ee6057a4ed9df5156acf2bb5a9d67int,
        0x68689f6941794d24bf40a08207a1400127520c3f82a744500859d559240c8279int,
        0xd21ddeec58e5fe2837a755393ba8a969a56da09e8656c318351c63cd92614dddint,
        0x5c61a4e7f368c766916038317ddede1cd5492998eebb6ed99bf6fc2abf4d8d14int,
        0x74be6242166f25523ff84e71c0bb290b98beaee40e7b1637e8bf5f33c56bc8ceint,
    );
    let k = lemma_leads_double(
        k,
        p,
        0x68689f6941794d24bf40a08207a1400127520c3f82a744500859d559240c8279int,
        0x5c61a4e7f368c766916038317ddede1cd5492998eebb6ed99bf6fc2abf4d8d14int,
        0x179440185a766506da237bf7ded17e28e244c6fe2950c5666c0ca76bf14bfa09int,
        -0x6ebafa0bf8b2b88562c5ec4f016f2441efe8763a880af8793ed0941bab31a3d8int,
        0xa197e1b7f3bde5c1268fbf9520f78f1b7c2448cc946b202bce6d70fab4112730int,
        0x22bf95e8ea207f6e0427c0af2775d0b550784670787d3341d1e36d594ae97d1int,
        0x4d238b3c35663181e56aa50acede4569b45988c6ccf482f3533762a2859ef834int,
        -0x5445c98adfe899234f47a10667d199fb356edff4b059baf1d4397f69971fa49int,
    );
    let k = lemma_leads_double(
        k,
        p,
        0xa197e1b7f3bde5c1268fbf9520f78f1b7c2448cc946b202bce6d70fab4112730int,
        0x4d238b3c35663181e56aa50acede4569b45988c6ccf482f3533762a2859ef834int,
        0x68527f6feb1c85b31c9f32a00511b66694abc9192097ff368b5274950771c2e3int,
        -0xf322935e6a56336d2660f9e23f55285986253533d4ecdae71dd3f52aaee4013bint,
        0x9f57cb76c78ff02d4e85ef211466af63b25f82f38e1909fbaf265c031764e132int,
        0x2a832220fcad293c077abe969f4607861361f6b68e41248b2d533e8474c45a49int,
        0x193b52b39629ea9d12c98c5b197212db00039b3158cf6ef6b49d1ea74acc3621int,
        0xeac2b062a2a4f730e7bf0c7b2d9c06eb4c3a35f7ef27b7d1fc92347f80a21bint,
    );
}

/// A multiple of the generator, step by step.
proof fn multiple_23()
    ensures
        leads(
            0x1fffffffe00000001ffffffffffffffff79cdf55b4e3nat,
            0x39f94ab77ab6eacc93ef07f47d696e52f3addb986c2559856cfac29fd85d03bbint,
            0x8425db27078149ad8393797d3c197b16c57adf0d58d7f1755e7d605ed5fd3fe1int,
        ),
{
    let p = 0xffffffff00000001000000000000000000000000ffffffffffffffffffffffffint;
    multiple_22();
    let k = 0xffffffff00000000ffffffffffffffffbce6faada8nat;
    let k = lemma_leads_previous(
        k,
        p,
        0x9f57cb76c78ff02d4e85ef211466af63b25f82f38e1909fbaf265c031764e132int,
        0x193b52b39629ea9d12c98c5b197212db00039b3158cf6ef6b49d1ea74acc3621int,
        0x6b17d1f2e12c4247f8bce6e563a440f277037d812deb33a0f4a13945d898c296int,
        0xb01cbd1c01e58065711814b583f061e9d431cca994cea1313449bf97c840ae0aint,
        0x96599d4ae2b7b0b6d0017cc5930b01086e530f9534b085c63a8d2f63520a33d9int,
        -0x1eafc68bab5343963640100b034e066dad6b3ef3bdce5da5ef90e907735481dbint,
        0xd1605c7f98518c3bdc14099138ae10f58e00559a537595bd0102d52b4cb75d94int,
        0x584d23b2d8b2fa7ec4ff72af307ff69d370ea590de178849e68818ff2140d36bint,
        0x61582c41e6e345a428575a5be939935a2a1735d0a001d63a1921c8f996f11e70int,
        -0x1d6288b3978058b96ad6e527356810f8812008ce6c988676cbdec9b43cbbb65dint,
    );
    let k = lemma_leads_double(
        k,
        p,
        0xd1605c7f98518c3bdc14099138ae10f58e00559a537595bd0102d52b4cb75d94int,
        0x61582c41e6e345a428575a5be939935a2a1735d0a001d63a1921c8f996f11e70int,
        0x328311006166da0e2d955527c15989dcadf4e3fd67e2fa1041c595d4d5bb5318int,
        -0x1db515376593480fcc76cbc5f4bcde74b73cde5a6bec0fb4a1fc2c1391b2bbc53int,
        0x324626b2a465f61d1d5335efa22ae562eb230a8431f0cc9c009c00d4fe34985dint,
        0x9f775be97885f1f0fe6e21837784a17ad5d334f36fb30d73044da13279ac145int,
        0xed335e389b3b10c230d9fbc9a5617c692d22b0adb969e71db302c73987fb7a1int,
        0x1f64937ca904dee83b3ef36666ccf1548f345fa992155159ce1095b89b1083e9int,
    );
    let k = lemma_leads_double(
        k,
        p,
        0x324626b2a465f61d1d5335efa22ae562eb230a8431f0cc9c009c00d4fe34985dint,
        0xed335e389b3b10c230d9fbc9a5617c692d22b0adb969e71db302c73987fb7a1int,
        0x7e087002e55cae077c9697c99e58a03e348c2cf038320cdadba6fdbdc2abda18int,
        -0xf058bcc778547f603caaf829eda316728546f76492c7289d3ff96830c62ecd8int,
        0x5480132ea18cb477bc329bbd68f50afcda3bbb8677a2d7ee7efbfc0fec3350dint,
        0x3e0c4e8a4904685dc54c56b0188100ae29d3d83bb82ef8624f2b6011854f8387int,
        0x1f877a33c066a4cbe14e90b9a08facde10c9b147067f69ff82510001df2cdf19int,
        0x16269215d28a2d8c39d0be3ec7aa4d5fec9d771c0f858d8142441aff0009273aint,
    );
    let k = lemma_leads_double(
        k,
        p,
        0x5480132ea18cb477bc329bbd68f50afcda3bbb8677a2d7ee7efbfc0fec3350dint,
        0x1f877a33c066a4cbe14e90b9a08facde10c9b147067f69ff82510001df2cdf19int,
        0x874749fef062abebe4fcd8d6de89523c51b44716b020f206d464b45cebd0227dint,
        0x20fec55c90ffd43411ff6c9a42028f5994f46701565a13555fefb548aeb0a58eint,
        0x9da6d204a90c97e83677bd3abdd8e190f42f42a9b651c441e08db4811b49a35eint,
        0x477c43e549d10eed5643550fed29c5c6a069db1128d46c52af74d9a18b0a9c6fint,
        0x2f16762c05aa3f6faa7daca4130d6c11ab881fcdbdea00a99534145f197ca6b3int,
        -0x50846e759d1592ef1af967af77c4dc8b001aab604c946a3e610db86d423bdaa7int,
    );
    let k = lemma_leads_next(
        k,
        p,
        0x9da6d204a90c97e83677bd3abdd8e190f42f42a9b651c441e08db4811b49a35eint,
        0x2f16762c05aa3f6faa7daca4130d6c11ab881fcdbdea00a99534145f197ca6b3int,
        0x6b17d1f2e12c4247f8bce6e563a440f277037d812deb33a0f4a13945d898c296int,
        0x4fe342e2fe1a7f9b8ee7eb4a7c0f9e162bce33576b315ececbb6406837bf51f5int,
        0xce6a70e77f583ad3529c9611f8a2e617769ddb2b2e549bd7eeeb66e814bda627int,
        -0x28c41790c72e94a77fca93db2a6802c3f612c96fa4fdc58cb3252d4b73616646int,
        0x8583d71298135a5a2304ecadce1126accfe72df5287493f9334f849f634cc11aint,
        0xa66f79f6e8e24e775672fa1fe543e3475a49bd39e354c44dbf1209417dc28d1dint,
        0x203688957b69a8b37649d475ea755a60820d2fb944dd1644e907e565fb89d47fint,
        0x13762f0fe6b5c9b632a9e02396b66d94e1d18d47f83352665ef19413b693ead6int,
    );
    let k = lemma_leads_double(
        k,
        p,
        0x8583d71298135a5a2304ecadce1126accfe72df5287493f9334f849f634cc11aint,
        0x203688957b69a8b37649d475ea755a60820d2fb944dd1644e907e565fb89d47fint,
        0xe3a00db65a6f050408d9317baa0f1567e829afba97621d77148591927af2e326int,
        -0x979dc646c0ee6ac93c8e6ab983d4e77ceca67d64bd54f378347cbc5be897abcbint,
        0x89e3bbef2076432cb07a6bff01b1d36456a68a4e918b7a14a5bfde025774d43eint,
        0xca653c6353733121f219fc4c9c7c94a3a774776957e5e1bd797a5cf6a8a9ecceint,
        0x4504b36ca5a67314fa189e6478565feedf4f762ddf1e9d340f88aecc3809905int,
        -0x3e3c41a97003a347af8c66f649a210e9c4c04ffb080cdc6dec356f43a01cf24int,
    );
    let k = lemma_leads_double(
        k,
        p,
        0x89e3bbef2076432cb07a6bff01b1d36456a68a4e918b7a14a5bfde025774d43eint,
        0x4504b36ca5a67314fa189e6478565feedf4f762ddf1e9d340f88aecc3809905int,
        0x8051f6daf0a28faabd7202a70ca45f29a9c8ce0564bda201469512ed15bfa3faint,
        -0xda7d8edf1469c805f2a026c7a7e0776231191fed5887205a442f4e033d08febbint,
        0x8e7d16c37fbf4cafb8f96a161ab86ea97e3c87c5da1cf365556d264423fb3b90int,
        0x40521119558a6959dfe044894fe385f4dab388ea25c1e638ce2b1d07b6d093e8int,
        0x37a5ef26bfc4e0b332597ffeebcb022059529c17e5d775dde90c0df00fdf9f5eint,
        -0x24e265f3b56ee6d61c6f6d0bc292c343f688156941fe3594876e7fd0d67ab89int,
    );
    let k = lemma_leads_previous(
        k,
        p,
        0x8e7d16c37fbf4cafb8f96a161ab86ea97e3c87c5da1cf365556d264423fb3b90int,
        0x37a5ef26bfc4e0b332597ffeebcb022059529c17e5d775dde90c0df00fdf9f5eint,
        0x6b17d1f2e12c4247f8bce6e563a440f277037d812deb33a0f4a13945d898c296int,
        0xb01cbd1c01e58065711814b583f061e9d431cca994cea1313449bf97c840ae0aint,
        0x3e82d8bf2a6c08009c38da5feb60152b3525ee4bd09702fcbc81d8b3dcaf9e73int,
        -0x8a49e0f6178abd0a455bed6d967e940c025b835088273ad785c368018d24d06int,
        0x39f94ab77ab6eacc93ef07f47d696e52f3addb986c2559856cfac29fd85d03bbint,
        0xf43a3dd817a33cc803d5c333f8ef9f4312fed5c277365a667eb2c8829a4da38int,
        0x8425db27078149ad8393797d3c197b16c57adf0d58d7f1755e7d605ed5fd3fe1int,
        0x14a31de6ec765eccc3d638ade51ebe79fc58eb05d778ab5f0749d9c310b95490int,
    );
}

/// A multiple of the generator, step by step.
proof fn multiple_24()
    ensures
        leads(
            0x7fffffff800000007fffffffffffffffde737d56d38bdnat,
            0xd62011ec10085cb1da3ae5a5cd310aa4cd322175b34a9ee211b484b048a5aca5int,
            0xf0f4e2d92057aedb853b5be838886e01b1dce6f6e01d9c383eb93103d58f9c70int,
        ),
{
    let p = 0xffffffff00000001000000000000000000000000ffffffffffffffffffffffffint;
    multiple_23();
    let k = 0x1fffffffe00000001ffffffffffffffff79cdf55b4e3nat;
    let k = lemma_leads_double(
        k,
        p,
        0x39f94ab77ab6eacc93ef07f47d696e52f3addb986c2559856cfac29fd85d03bbint,
        0x8425db27078149ad8393797d3c197b16c57adf0d58d7f1755e7d605ed5fd3fe1int,
        0x741f8aa350503ea01341866f871b5a14e908c03520268bec4be17eb8b459909cint,
        0x507ffccfc40459759b8346027e9f9cba61c2bceaa075fe1bf55d13774acec590int,
        0x123e5f429eba4a2e6d6d00cf52c2aa806f7423f0391387f739f9d34eb81c8c16int,
        0x34ac99871417407cfe89478ff5ade36acff6a10121ce5c6a8f8fd59d2aaeb47cint,
        0xc7f22f9b18641d88faedf452f53d1182776c0a8d7d928ff178f10c84c03775f4int,
        0x120597d7a4427beb256030c4b8180f36b15058e683495f75961f362e0f41fd49int,
    );
    let k = lemma_leads_double(
        k,
        p,
        0x123e5f429eba4a2e6d6d00cf52c2aa806f7423f0391387f739f9d34eb81c8c16int,
        0xc7f22f9b18641d88faedf452f53d1182776c0a8d7d928ff178f10c84c03775f4int,
        0xa9b85f87e96dc150a3f67e20c15e9cdbae0d48f1c0640a0e47cc786e207d180int,
        0xcab5e7caeb764e71d4cf327162a81b14a1b08d85a09615648a1808dab01d9a9int,
        0xe9fe8f10319aabfea971713d077470a811396a48500df611586e5b056c957386int,
        0x7084f2eb59bd9154c1b478f6d10e22ed5648d054e346c748ebe17fbc5c4bb2int,
        0x364d4ab0d4c7cb9fe47998444ee2dcc90a6437a819b48d9d8ed8ead1242fe101int,
        -0x8f0942347d91de38bbf05276084ca0f6222fe4db83efee94c6323b9f622810bint,
    );
    let k = lemma_leads_double(
        k,
        p,
        0xe9fe8f10319aabfea971713d077470a811396a48500df611586e5b056c957386int,
        0x364d4ab0d4c7cb9fe47998444ee2dcc90a6437a819b48d9d8ed8ead1242fe101int,
        0xf9b85f84f2bdf0fb5ec317013d34c36dd67afcc916d987094044b47e712b59aeint,
        -0x217b385b802993fe5fcde95a73975d339e88e8cfc2ac9758c48e1494cb98590f3int,
        0x30551c4b8ebfbd8a4084d611ff56c75f40320ed013b84b773c8c2aebb4499d35int,
        0xf3982e9b068e8fa1ad8cd84f9b449975de9dca4a7a328be6ba289d2bb19611fdint,
        0xbfadc2f8f206bff2a89d72058ae6161975e6ecf3b57089b6c602d62583bd7524int,
        0xb51b87b2c1d99c2ca86c8dd6f241dced7dd6745a45041cda1a32403446448217int,
    );
    let k = lemma_leads_double(
        k,
        p,
        0x30551c4b8ebfbd8a4084d611ff56c75f40320ed013b84b773c8c2aebb4499d35int,
        0xbfadc2f8f206bff2a89d72058ae6161975e6ecf3b57089b6c602d62583bd7524int,
        0xae90d49c8db0b27291c1df9999828cb52d475e6236eaf9e9544f90369bf6ca03int,
        0xea0902307d7a7a173a9e8d472a55d96278ec13a91b722c0d8f7018b3e5ce9810int,
        0x245ae56c7c42ab79b2934359f3dc232307eca2e6db7704728385c2aba0ae5ef5int,
        0x770932f5285876bad5aa2568d3e6432048aa75024bea59ec885eb8b68a14dd56int,
        0x96a360080f0ce790ce7524bb644e9e0ceae8914434be537e98aa9400c12ee659int,
        0x82ad7fd0cc18075327e5804eac3362e7f4db4ed9245b2c08062aa8ef97c20bdint,
    );
    let k = lemma_leads_previous(
        k,
        p,
        0x245ae56c7c42ab79b2934359f3dc232307eca2e6db7704728385c2aba0ae5ef5int,
        0x96a360080f0ce790ce7524bb644e9e0ceae8914434be537e98aa9400c12ee659int,
        0x6b17d1f2e12c4247f8bce6e563a440f277037d812deb33a0f4a13945d898c296int,
        0xb01cbd1c01e58065711814b583f061e9d431cca994cea1313449bf97c840ae0aint,
        0x1ed6a0ce44d804465bd4398d36d3b62be6037f00bad3f94352abece442ca274cint,
        0x885721493915fa5a2d97f489a9ba3099f9f00c89ce8fdeb8127c3439944ace5int,
        0xb5c20ed77f322d6bf7b6b2675cdfbfbb8375b251d39e84dfef37836e0c2d3c32int,
        0x3b701a199b7380a1ca9c7477cf6f69a3a440eeee085f14275df841a4b7c1f2dint,
        0x56c0e75683597fc4b891115c4faee04e9d0837c8b7c2001f62505886c70d8dc6int,
        -0x1183fe6cdd50d248d074106830b87a004aea34ebd41f7db6bc126de7ee4392c5int,
    );
    let k = lemma_leads_double(
        k,
        p,
        0xb5c20ed77f322d6bf7b6b2675cdfbfbb8375b251d39e84dfef37836e0c2d3c32int,
        0x56c0e75683597fc4b891115c4faee04e9d0837c8b7c2001f62505886c70d8dc6int,
        0x3050f99b1337c62004e120e368b9c0f76b837cba50537ff5e210843b7f72c84int,
        -0x1811800bf56da832b56cc538828fadd1912eafbf04f173aaf8f522c15df97d6e7int,
        0x9ea323138c3021f1d1a58f22375cc3c5651bcb03de5568af3d9919999fa5ec7fint,
        0x91e7737249e6db1b7bcf757beeeea60eef9cf100bcba36fa34312118ac0d3int,
        0x4c00bea15a3fbbb38dc9392f03868fe2c124140d165e59f90d5d9b7f9e24d270int,
        0x45d1c6983f01b3e1d1310597906b64d54e3743933af9f8084afb77530583eaint,
    );
    let k = lemma_leads_double(
        k,
        p,
        0x9ea323138c3021f1d1a58f22375cc3c5651bcb03de5568af3d9919999fa5ec7fint,
        0x4c00bea15a3fbbb38dc9392f03868fe2c124140d165e59f90d5d9b7f9e24d270int,
        0x359cb63dd575fe116d4334b14409ac9b98abc4fbae71c5208e980e73c5464763int,
        -0x10713f9b98f22e1683216f72ea2221d075b58221534e10992754677b4c9e3ada0int,
        0x6c91ca6734a570c2491e92ce87836823dae578f99579baf6347b651c79b06c73int,
        0xb3a436442b540d8456f660279ca86c3609d2a08a4293cff912564343cf03528int,
        0x413ad6b4ece5409ab15f0c9304dcd9153c5ba397655de0707c7111f2723cac56int,
        0xa7c3d922e8d7677f46b327f16d7ee4415ff8c72d7e47fb9f46bb1770ca5a622int,
    );
    let k = lemma_leads_next(
        k,
        p,
        0x6c91ca6734a570c2491e92ce87836823dae578f99579baf6347b651c79b06c73int,
        0x413ad6b4ece5409ab15f0c9304dcd9153c5ba397655de0707c7111f2723cac56int,
        0x6b17d1f2e12c4247f8bce6e563a440f277037d812deb33a0f4a13945d898c296int,
        0x4fe342e2fe1a7f9b8ee7eb4a7c0f9e162bce33576b315ececbb6406837bf51f5int,
        0xa7ef8597f774242922e244582e1d4f0d9e1a17537942d7472744430563766750int,
        -0xf7f2b816794459aaae700f7f153d031b56b3606eb5f8f99f1033bd9ae25a51int,
        0xd62011ec10085cb1da3ae5a5cd310aa4cd322175b34a9ee211b484b048a5aca5int,
        0x6e2a60676a7b33c4b469e44260631da7d3bdcd5a3383228af4f86f47537d62aeint,
        0xf0f4e2d92057aedb853b5be838886e01b1dce6f6e01d9c383eb93103d58f9c70int,
        -0x453e939249814c8fec9b7c0cc0351b7cb83ec2c25d45e53d8a3dd2bb71af899aint,
    );
}

/// A multiple of the generator, step by step.
proof fn multiple_25()
    ensures
        leads(
            0x1fffffffe00000001ffffffffffffffff79cdf55b4e2f3dnat,
            0xb6c88e89b8129b7277b414a5648a11f4f2e9d97a40526e22ee25b80bac33406cint,
            0x7ccf333f633ccb065d76f4da59c7e0076d7776605ca9dcd853f4a31991655779int,
        ),
{
    let p = 0xffffffff00000001000000000000000000000000ffffffffffffffffffffffffint;
    multiple_24();
    let k = 0x7fffffff800000007fffffffffffffffde737d56d38bdnat;
    let k = lemma_leads_double(
        k,
        p,
        0xd62011ec10085cb1da3ae5a5cd310aa4cd322175b34a9ee211b484b048a5aca5int,
        0xf0f4e2d92057aedb853b5be838886e01b1dce6f6e01d9c383eb93103d58f9c70int,
        0x6a2510347f3909d4ae791700d1c75d9e6d7d86873f7c2ba63c705e1f38df9186int,
        -0x1517c54cbf5d44c5fc2766527af6751ed80007485e4fc256289b53a15594e3e38int,
        0x4d10b393a3497393d12932e94faa7420782d722cd5b0187d6578877da49251baint,
        0x2c02b6c95591541531258c0599cde35bd167fd65510c171061fb5780bbb098e0int,
        0x16805b1898e1e26028f22815f38575398472676dc2f29796f33263f0150ca96int,
        0x38d434f689c4d353bf79ec821fab596ff4a65db0156d3f431490aa9d638ab504int,
    );
    let k = lemma_leads_double(
        k,
        p,
        0x4d10b393a3497393d12932e94faa7420782d722cd5b0187d6578877da49251baint,
        0x16805b1898e1e26028f22815f38575398472676dc2f29796f33263f0150ca96int,
        0x66a8a2869b273c4fb21f8ec51837f2a7b32d7533e6343e4f04e7c2e4c9b3384dint,
        -0x4478687f71fabd5624747ac59918119e703f9d33b2bd909b479022d21641ccd3int,
        0xe1fdfe1ce7eb03b67bf8226d575e059259755aa229dd77fcc7f1f62aa97ceb2fint,
        0x292ad09924a85b4c197903cdc0b7e118518810feda82741408711c1d4091c77aint,
        0x68289205abcac921aeab4772094f8e82f2599400dd14d481e7dafa12a979b554int,
        -0x3bb8a5f84ec87012156e8483aaf7761c747dbd385242bd57c890c3d65f44bfe5int,
    );
    let k = lemma_leads_double(
        k,
        p,
        0xe1fdfe1ce7eb03b67bf8226d575e059259755aa229dd77fcc7f1f62aa97ceb2fint,
        0x68289205abcac921aeab4772094f8e82f2599400dd14d481e7dafa12a979b554int,
        0xbaf1770b0ee37a8638600be1bd6dacbceb39716b474509e4450dad36d5eb4211int,
        -0x1be61ec9d0dd71646f9e41acf79b7a5244ea31ba6704f8aff8c3389cfc11b6d48int,
        0xaabfee844917c6830e72c77e330d586f789cb51067af66554840508e46aad3a9int,
        0x8883c4bdf453a366eac4903eb2de879826f87ebb7e77c1a60f1e0f94f361e4e6int,
        0xa75c006e4f38127a713b31b80c0e1694f5d1b9f3059117a507ea8e66eb4b8e27int,
        0x28573271f68b4a7b84d135401b2f42c83947249e18029e1e617b2eeac4bf2795int,
    );
    let k = lemma_leads_double(
        k,
        p,
        0xaabfee844917c6830e72c77e330d586f789cb51067af66554840508e46aad3a9int,
        0xa75c006e4f38127a713b31b80c0e1694f5d1b9f3059117a507ea8e66eb4b8e27int,
        0x39d68fad14979e32e1c1742f8994bfa462196ad6f889cbfa5fc513709630ae06int,
        -0x10a0ae82c86afb35458ab0dbf4249d17c3365ee5da6133875a8b8a00a190b9d24int,
        0x1e45316ba9da3bd090fad7b1a08d5558be21c2787871aca7b3240d7e25b9b333int,
        0xd113fcfa63e03c4f8170c9ff0ead3fcf42101715e19e1b6fdde7029f2833261int,
        0x74f0d80a432ed5aaa3012e16b594fc12d00ef37c98bb24abcfe48e75ae7f0aaint,
        0x1fbd118c37a63771e6a510f83791185f43325e08bd344c96f6a1e2ae625c880dint,
    );
    let k = lemma_leads_previous(
        k,
        p,
        0x1e45316ba9da3bd090fad7b1a08d5558be21c2787871aca7b3240d7e25b9b333int,
        0x74f0d80a432ed5aaa3012e16b594fc12d00ef37c98bb24abcfe48e75ae7f0aaint,
        0x6b17d1f2e12c4247f8bce6e563a440f277037d812deb33a0f4a13945d898c296int,
        0xb01cbd1c01e58065711814b583f061e9d431cca994cea1313449bf97c840ae0aint,
        0x3bf3d12f552c47336d86acc6ccbd8c9cfce3c888ba2e4f45c4b33169ac639ebeint,
        0x11fdb5b3c56035e8d0efb4852f564b76f06f37815e68c416e34f6adf890337e6int,
        0x98264d08b10d9868c1f1d37dab999279066354fcfb38c82d70a180d1e4fd7087int,
        0xe0a4aa2aa16b7562b04faabf67d0368b5ea69752057940a2a1fcfa669ecd14cint,
        0xb29bc827ee80893ed7fa5997cfc356b5e27051484829271f6b4b73d0e44f306dint,
        -0x1c8af5a1d3adb930bcefb8a4e81f5155a4333b6c7c32bb74cdc6c539562c8291int,
    );
    let k = lemma_leads_double(
        k,
        p,
        0x98264d08b10d9868c1f1d37dab999279066354fcfb38c82d70a180d1e4fd7087int,
        0xb29bc827ee80893ed7fa5997cfc356b5e27051484829271f6b4b73d0e44f306dint,
        0xa062b7b604d46e0eec641b05bea0471db15e82688f5826c1c34637bbd3edec1aint,
        -0x2f7c09d02a6a99b81c8e6609cd097f8f32a476041ec0322f67280dbf7c4b9894int,
        0x913b962857a991a62cdbfcb451513315b8685997fc0956ba592c5756e37e63c6int,
        0x647b8bb515b6843e2fa23ddb24fe2296634cbeffba0e9534f7bb2eaccf955230int,
        0x297994edfd26d9486e66bb24dd0292fae1f11302c737cd4500c5e964d521e1d4int,
        0x4555d1cf1cfe53b64143a40cabf70a27a7acc1afdccdf4a5b7fdf39911adaa7int,
    );
    let k = lemma_leads_double(
        k,
        p,
        0x913b962857a991a62cdbfcb451513315b8685997fc0956ba592c5756e37e63c6int,
        0x297994edfd26d9486e66bb24dd0292fae1f11302c737cd4500c5e964d521e1d4int,
        0x9fabde1ceaeb992e80017b12d617ae37f2035299330091887021ceb827ccbb36int,
        -0xc370f284b5f3f132dda95faa9a6c0841638c402170ac9c5a400a965966b6c607int,
        0x17447f8b000cb8adb9ef3e03a01e8aea0ff0d1241bb9a660d8d59d9009b65720int,
        0x6396f14acabf9b05a71337a0d840f741bf80e86044f7f3574d7a41d875bb2f48int,
        0x5c9bd4932f6b38101f23c5b85f078c535207e702bda5a81b65fa0952596ef3int,
        0x4c1258ea2d254e192023177124f6d9f03984033b0c478335972cc1bfb7c363c3int,
    );
    let k = lemma_leads_next(
        k,
        p,
        0x17447f8b000cb8adb9ef3e03a01e8aea0ff0d1241bb9a660d8d59d9009b65720int,
        0x5c9bd4932f6b38101f23c5b85f078c535207e702bda5a81b65fa0952596ef3int,
        0x6b17d1f2e12c4247f8bce6e563a440f277037d812deb33a0f4a13945d898c296int,
        0x4fe342e2fe1a7f9b8ee7eb4a7c0f9e162bce33576b315ececbb6406837bf51f5int,
        0x230d7a4a3dcda864775eb4ffe8f319d14834441848fc304ad231797811c1302bint,
        0xb7a4e0a732011c3e74cbf4c90e92013fee7c470e12a0eb90499e0e4d741b630int,
        0xb6c88e89b8129b7277b414a5648a11f4f2e9d97a40526e22ee25b80bac33406cint,
        0x4ccb025f7a80b84540423ccffdf1c0c8416669e18d4d734794586622e9c32e9int,
        0x7ccf333f633ccb065d76f4da59c7e0076d7776605ca9dcd853f4a31991655779int,
        -0x15d773f4ddc3f0d6294286c869f0741be15fdebe970f0dbe95dbae57773bc9d0int,
    );
}

/// A multiple of the generator, step by step.
proof fn multiple_26()
    ensures
        leads(
            0xffffffff00000000ffffffffffffffffbce6faada7179e84nat,
            0xeaef3f9397aa11eae181bcd301a4f0cd2cd3a385d7f55475ec244615723ffd73int,
            0xa7adfad21fd25aa843cc606fde459f266a68121774d939ffba876525f3cb6ff0int,
        ),
{
    let p = 0xffffffff00000001000000000000000000000000ffffffffffffffffffffffffint;
    multiple_25();
    let k = 0x1fffffffe00000001ffffffffffffffff79cdf55b4e2f3dnat;
    let k = lemma_leads_double(
        k,
        p,
        0xb6c88e89b8129b7277b414a5648a11f4f2e9d97a40526e22ee25b80bac33406cint,
        0x7ccf333f633ccb065d76f4da59c7e0076d7776605ca9dcd853f4a31991655779int,
        0x5470a5c84b32e321637d2e208201a340a01ffeca339bd0aa80979c4f1170ec87int,
        -0x1352f86cce84b6a25bc9de6b48afed28bdc1ad529513de14f102035af3c4ed0f1int,
        0xc317254ba84a4bd587ba11b418a59cdfaf2c1f8f11b46f0639fd66ad9245261bint,
        0x1bda1e5d07d11d96c0dafca54eb51eb8ec18f8c9dc61d294a9e022392c0277c2int,
        0x62a7bfa2474c85a8c9974efe929cd60c4ec8fdd3265498bac720c79090aeda42int,
        -0x40f33d1e3e8d1d6aa7d49d7ce467404326909d433101deb085ee0c6ef2e5afcint,
    );
    let k = lemma_leads_double(
        k,
        p,
        0xc317254ba84a4bd587ba11b418a59cdfaf2c1f8f11b46f0639fd66ad9245261bint,
        0x62a7bfa2474c85a8c9974efe929cd60c4ec8fdd3265498bac720c79090aeda42int,
        0x7e0a3376d947900a7a41aa6d2f81b1952d4c5c95a3d6fbf1603466442e7f0620int,
        -0x15cdfd15327c534781b55be1052a255c9bea5af47a77a25e5404fb6018ebf93f8int,
        0x37bb41f89568cef5c6cdd2e994cb1bcf272b106132f9e19f52686b3ce0dae342int,
        0x3e0e0b114b92083228758a9780be6e3cd331c492e049e8035494925d717fab78int,
        0x85cb39907677067b8d01b78d67511eb1647628882ae01b02da07cc24fc59eb29int,
        0x449cc77e0a12ad6742065d4ef9d5d9f75ca1f6da00c1b0ccc8eb2e18ba88544bint,
    );
    let k = lemma_leads_double(
        k,
        p,
        0x37bb41f89568cef5c6cdd2e994cb1bcf272b106132f9e19f52686b3ce0dae342int,
        0x85cb39907677067b8d01b78d67511eb1647628882ae01b02da07cc24fc59eb29int,
        0xe05d1f4553924fe6c8c2d7e3065b67bde5d0c944415fef1de4ee9e5bb461835int,
        -0x15bdae4597c4349beded9f9fbd58b2f12e447663b1c9365cbf37bb53d74cb7f1int,
        0x7e6a7cd84f249d763a06b003098ff456b57fa8d78050bf86b6275d452773a44cint,
        0xc4a31899d313b9be92f4a2f931a06f4cf315a54510153a8234f05e3be36fd7int,
        0x1067c4bc316d219724468f96388fae55921cfd6ad7e94820bf6fce44199772deint,
        -0x3df309cec02d0399a22e4042e9d2cf0ba61c01aaf4d8f94f417d888e399bae7int,
    );
    let k = lemma_leads_double(
        k,
        p,
        0x7e6a7cd84f249d763a06b003098ff456b57fa8d78050bf86b6275d452773a44cint,
        0x1067c4bc316d219724468f96388fae55921cfd6ad7e94820bf6fce44199772deint,
        0xd6be9e6daef03da7f6225309237433fd6749d3ba48e55744d1086a32681a48b5int,
        -0x9fc1125179e71b49837b57d4c42559fd88d5c11be24265ca9a1245b48cb0ea3fint,
        0xc0c011ea3966c45eea06ad310e7eea14513bd10b558e47cf8d3fbb6c3561ad78int,
        0xb4233ecfa178256e3e62ee8319d950c4d7c150ab29ccec364b6ecd7c9adea617int,
        0x3cb15e9eeb873f399b8642be3fea6fe85a73e2f6a5432017e0c56612730eb10cint,
        -0x37a4ef2f128a0b8ba90b21cb3c3f10daa57f73dae72b490c85cb1da2d900fffaint,
    );
    let k = lemma_leads_double(
        k,
        p,
        0xc0c011ea3966c45eea06ad310e7eea14513bd10b558e47cf8d3fbb6c3561ad78int,
        0x3cb15e9eeb873f399b8642be3fea6fe85a73e2f6a5432017e0c56612730eb10cint,
        0x232359521f0e0a6d5ebdb8edfec99aa6083f85ee92d280a53cf82f10076328a7int,
        -0x1a2b8be36aecc38ff381caf2b518239c6a91146ab041cda4745fd77887c5484ebint,
        0x34cf5cabda4bb9c7e79f11e446f0d4689280c9689422c35a7b9f450df9567e24int,
        0x4d2af4e04ef37ee6def724e4b34031374695959a79e3ccf3505c264ca7b3c23int,
        0xed47cc07b8c5765bc480e99029fd99f289d6dce633e3bfc75c5cc6f810bbe0a2int,
        0x13353b83f4d37e837e38d2fc4a305c00eb1607631ba8fa79f91d5450ff9d91e2int,
    );
    let k = lemma_leads_next(
        k,
        p,
        0x34cf5cabda4bb9c7e79f11e446f0d4689280c9689422c35a7b9f450df9567e24int,
        0xed47cc07b8c5765bc480e99029fd99f289d6dce633e3bfc75c5cc6f810bbe0a2int,
        0x6b17d1f2e12c4247f8bce6e563a440f277037d812deb33a0f4a13945d898c296int,
        0x4fe342e2fe1a7f9b8ee7eb4a7c0f9e162bce33576b315ececbb6406837bf51f5int,
        0x5a5329acaed2ae0b821c3ff92a8374a4f3815e42d8d135e1aa12f39b7c454904int,
        0x13271b8f4a225e393e97dfbe2bcb7e487f0241ecdae0d88b815eccdd19bbdd8bint,
        0x36310f9c67f346edc7e3d61c7409ce3fe7d4729acdc4f3515cf80742108db9e2int,
        0x1fde9451978cd7c948dd1fe1e74d907bfab83bf1ca8ade31f7d151419181b28cint,
        0x340167c4f66e9748c10b0b072428fae612d344f48372119f6db659da386ef1a3int,
        -0x7ccbcf2a85ebc50178f38083d25849ea118214c2911e5df25d72e177b910c3int,
    );
    let k = lemma_leads_double(
        k,
        p,
        0x36310f9c67f346edc7e3d61c7409ce3fe7d4729acdc4f3515cf80742108db9e2int,
        0x340167c4f66e9748c10b0b072428fae612d344f48372119f6db659da386ef1a3int,
        0x38ddab01e96df9b5601daeee9c80b49ed240c47e2ecc960852018922aba272f1int,
        -0xb4f86a8f1fcdd9b5d8880ff1969e5bcd367663668f0d16da3bd20f7069ede5dint,
        0xb8308948d15e3efa5e7a6fa988fc0ab6a2e5c93418e17df6919d1b4447646dbcint,
        0xca1bac1964a6dbe9a2b4462993db6029c02c06d3dca403c186c4320c5e05a9fint,
        0x1a931586688004ea4d30399d6b4304ecdfeb17c1e93e95d3f67431b7089dbf2bint,
        -0x1ce073007c95dd0472c3946576c5d531861ba2bfeff97dd9aedef6f914c8eaf8int,
    );
    let k = lemma_leads_double(
        k,
        p,
        0xb8308948d15e3efa5e7a6fa988fc0ab6a2e5c93418e17df6919d1b4447646dbcint,
        0x1a931586688004ea4d30399d6b4304ecdfeb17c1e93e95d3f67431b7089dbf2bint,
        0x95b7fab8a622fff06ad5e5702363a19dae3220b75d3ae3ba3a0b13ee14053131int,
        -0x16e7c0241ec652418016f633047d5de8cd2aa98c8626443d874617aed4982be49int,
        0xeaef3f9397aa11eae181bcd301a4f0cd2cd3a385d7f55475ec244615723ffd73int,
        0x578fae13b27f1bb6bb080b7db5f0f5a80a66a4593fa6a810a0a2efb763ab0d8aint,
        0xa7adfad21fd25aa843cc606fde459f266a68121774d939ffba876525f3cb6ff0int,
        -0x1dad7820ca91ffc357a42eb4047e0378c72e5b47d488d2e327dcff3fae7b47deint,
    );
}

/// A multiple of the generator, step by step.
proof fn multiple_27()
    ensures
        leads(
            0x3fffffffc00000003fffffffffffffffef39beab69c5e7a13cnat,
            0x308bd24b70ebae7b5497e8509dfd775ed6e5ec9a7f25e58e952bbff61805095dint,
            0x5169297ab4db0865457f832c4438bb3f31b7f6f3e297480c00bed89333d5186int,
        ),
{
    let p = 0xffffffff00000001000000000000000000000000ffffffffffffffffffffffffint;
    multiple_26();
    let k = 0xffffffff00000000ffffffffffffffffbce6faada7179e84nat;
    let k = lemma_leads_next(
        k,
        p,
        0xeaef3f9397aa11eae181bcd301a4f0cd2cd3a385d7f55475ec244615723ffd73int,
        0xa7adfad21fd25aa843cc606fde459f266a68121774d939ffba876525f3cb6ff0int,
        0x6b17d1f2e12c4247f8bce6e563a440f277037d812deb33a0f4a13945d898c296int,
        0x4fe342e2fe1a7f9b8ee7eb4a7c0f9e162bce33576b315ececbb6406837bf51f5int,
        0xfc4d96ecea839fef3458afc42dd2aebbe8df8127d87932bb6a0166b464f0a6e0int,
        -0x7dfecf1534eb6bb6bd19d9a4ef9d4c464f38637c445f11d5df4b804b565d4e9bint,
        0xea166da8c0567e5b69f7cf5e12d1f0c90159d5985b391469bea3888fa19b6134int,
        0xf8a8d8a789db8cc72f16e1f26b605bf126300a7bce61fd9ff276f8529bacdd3dint,
        0x93e935539115bc8d3db169240229c1e9649863eb5062620be71c17efe5957d5bint,
        0xd5b05a241677c3c18d5a54787d03a19cae2996c14ebc9466e7050d74f75c2bint,
    );
    let k = lemma_leads_double(
        k,
        p,
        0xea166da8c0567e5b69f7cf5e12d1f0c90159d5985b391469bea3888fa19b6134int,
        0x93e935539115bc8d3db169240229c1e9649863eb5062620be71c17efe5957d5bint,
        0xd61aaa1d2fa2f18ed3ae5954ba603aac5f3335e1a9f5dfd0ce48bf670b6cc41int,
        -0x272b07bff697581d52c3848ab5cbd02462f4a9c085f75a639749d84dbed755889int,
        0xc6b1d42f869a79ccd98a3e79d2736426b7958b92121a56c5c72e71fb5dfa8fe1int,
        0xb31097307dad76bbe2210437c3d3378df7ea178c0818ba05edeaeeb1cda9c8int,
        0x3e122a56c4b0c1f657ef6cd49e049e15360ffa6ad826aadc55dc5783fd1a91ebint,
        0x1d99c807e112b33d9fdeb12662d7e965cdcd9df6a4217b38f23e73f6f0ac533int,
    );
    let k = lemma_leads_double(
        k,
        p,
        0xc6b1d42f869a79ccd98a3e79d2736426b7958b92121a56c5c72e71fb5dfa8fe1int,
        0x3e122a56c4b0c1f657ef6cd49e049e15360ffa6ad826aadc55dc5783fd1a91ebint,
        0x81cf2f0da04a9a8d5e2b8aaf129425555dd3450f63c48f5298a3172117c9bbe5int,
        -0x18fb3e866377225000deeaf4198c537e08d32827299b0bf1d2bfd237894c8f52eint,
        0x98f16444a1a5d460cded0339a12adf2a582e12ef2da7fe96e2bf199ec62d12fdint,
        0x41d275191e0cdf1656718809ea55a2a68b2739c41d93a6dbd78287cfc49fd7e6int,
        0x213770c38bf6d547de4ff0bb8cfe17808abf81cc0cb6f66135d14ec722a57134int,
        0x1732ff68b778d2be8f6d285d4007ae2d940110baad4c65783f4fbca0afb0bf2bint,
    );
    let k = lemma_leads_double(
        k,
        p,
        0x98f16444a1a5d460cded0339a12adf2a582e12ef2da7fe96e2bf199ec62d12fdint,
        0x213770c38bf6d547de4ff0bb8cfe17808abf81cc0cb6f66135d14ec722a57134int,
        0xf89eff93cd1946c771ec51aee6652fbc4be5bd27ecb8a5f9582e29d31d54ca7fint,
        -0xd199f2d244d96b092253c33247461a391ace65ee6091b509df58156069dcb780int,
        0x1912ad3e0ca29b396518337851ee3f1dad30d7061762adf1c981c6f022f82b42int,
        0xf17471efc86e5e322c3e861609333fcb67a9a59da54ae6e2f35d2cdd65cda63bint,
        0x3101ec2b99dc5ccc7e4bd0b34cb3fd76d00cbc9b86223d3649cd460afe6f2817int,
        0x7c2f2c6c7e3ee3a7e6c434bd64df92e5a6cb95165d4e2427c3d845aa32a01586int,
    );
    let k = lemma_leads_double(
        k,
        p,
        0x1912ad3e0ca29b396518337851ee3f1dad30d7061762adf1c981c6f022f82b42int,
        0x3101ec2b99dc5ccc7e4bd0b34cb3fd76d00cbc9b86223d3649cd460afe6f2817int,
        0x3a4b5e9eedb02dd5b649eb3d51b50b6baf8c4a66aa3a21b5af35118aa4ffa512int,
        0xef3c4c5a3bcf45387db26f691376c9fc04d2790bdec447e64d49651b66c6dcdint,
        0x36fdbea2bd0ca75824ba359cb44c8cc6ec3a15d7156a364808cdc38d88f891fint,
        0xd463d10a5127047ed6fb4e6f4e4ed44271296cadfb4654adc3983e7ca33aa5fint,
        0x621fba567833c522165d50f469579c62de6b4b530b7b7728393078b6424f9e0aint,
        0x4ed421f90e046d022584d67939c6f2b757e064c8e438d18c0d43af2a805d0abint,
    );
    let k = lemma_leads_previous(
        k,
        p,
        0x36fdbea2bd0ca75824ba359cb44c8cc6ec3a15d7156a364808cdc38d88f891fint,
        0x621fba567833c522165d50f469579c62de6b4b530b7b7728393078b6424f9e0aint,
        0x6b17d1f2e12c4247f8bce6e563a440f277037d812deb33a0f4a13945d898c296int,
        0xb01cbd1c01e58065711814b583f061e9d431cca994cea1313449bf97c840ae0aint,
        0xdfd04accf49a9f6d30c54f3acc46d1d8fad2365f367ab18c6e37175b86258a73int,
        0x5a9fa61361aef33982ed59010b7023baf1b1c61cb1716d4748e2844ef09f198bint,
        0xe445fe0772a9bb62ec4d4a0e611389ddb7f562d17ba8c64a6d2a49ebca3a150fint,
        0xc3ac8bcb78ba8a4e25c552b0005dfe70743a3bb84c0eaf982d11f536c744311bint,
        0xc76b8713907723a30ec55a26d1e0d7f2fc2c3ea91cabbd934a62df73b66fd4a0int,
        -0xc4917765e4658cb02cebcf0c93614d32fdd6e0f46e8dd4ea647368f7ae845086int,
    );
    let k = lemma_leads_double(
        k,
        p,
        0xe445fe0772a9bb62ec4d4a0e611389ddb7f562d17ba8c64a6d2a49ebca3a150fint,
        0xc76b8713907723a30ec55a26d1e0d7f2fc2c3ea91cabbd934a62df73b66fd4a0int,
        0xd8833940fe6bd86636ea00d04162f80381a184a21c5014203d4cf7987edfe17bint,
        -0x1115459b13c389585519b83127ee4ce69d603f9bccd3ddd2e4b20802a28612d20int,
        0x726406f3191b90e2067edfa7fbe371dadc5616a1e2251a0e35d60d00ce93c745int,
        0xb71db3e209c6153981135c9cd57b41267623608db2e969d5a34a5f08b424804aint,
        0x400558df93c1544d142709569d8f610f949549102daf452041500ff38ea2a934int,
        0x6051089334fa4a12f8d23495177b389fa305163b1384f14c1a5dfd3c02d693c6int,
    );
    let k = lemma_leads_double(
        k,
        p,
        0x726406f3191b90e2067edfa7fbe371dadc5616a1e2251a0e35d60d00ce93c745int,
        0x400558df93c1544d142709569d8f610f949549102daf452041500ff38ea2a934int,
        0x34e0318ef4cceb053031caf723efabaa1bc24c69e63a9d8f8719e91cde261341int,
        -0x7ee5699268a0d2b4484eb90713ad72888806ac26511ad86d3d92ddf67e189aa0int,
        0x308bd24b70ebae7b5497e8509dfd775ed6e5ec9a7f25e58e952bbff61805095dint,
        0xaebd878e22388192b443b75b30efb4c966456e20d9fc1ac07ff42b1406de166int,
        0x5169297ab4db0865457f832c4438bb3f31b7f6f3e297480c00bed89333d5186int,
        0xd99949f556e8b9f4294b96c334f0abf2ccdb92e260dc0341262d2f86f198ad2int,
    );
}

/// A multiple of the generator, step by step.
proof fn multiple_28()
    ensures
        leads(
            0xffffffff00000000ffffffffffffffffbce6faada7179e84f3cnat,
            0x5bc0e7df71ea20932fc69f457bee496631aae9d33d68b3dbf6e2af71f8186351int,
            0x2277a35852ca89247d084586b1f279bd7c895bc7c7a253fd015944184f0ec8f2int,
        ),
{
    let p = 0xffffffff00000001000000000000000000000000ffffffffffffffffffffffffint;
    multiple_27();
    let k = 0x3fffffffc00000003fffffffffffffffef39beab69c5e7a13cnat;
    let k = lemma_leads_next(
        k,
        p,
        0x308bd24b70ebae7b5497e8509dfd775ed6e5ec9a7f25e58e952bbff61805095dint,
        0x5169297ab4db0865457f832c4438bb3f31b7f6f3e297480c00bed89333d5186int,
        0x6b17d1f2e12c4247f8bce6e563a440f277037d812deb33a0f4a13945d898c296int,
        0x4fe342e2fe1a7f9b8ee7eb4a7c0f9e162bce33576b315ececbb6406837bf51f5int,
        0xee0303e26b8a5a74df66d02b058e0d9f4a9e0d6f22924ca506b2323d5fb93c30int,
        0x366ed8354bf00283aad50903162df0dd5d230632d5ad3e2a7d19a1b64834e9bfint,
        0x77d8478757f96f1d286ada60ce8335d1bcccbcb568a1cdf8c268c9694250f31eint,
        0xdd499b42f49c7778d106a9a8eee0323ba8fadda486bcfcc33be1531187683611int,
        0x54ae88f509734c732ae52c98bccf9928e557923297fa172a98fa2ba2e16a983bint,
        -0x4249ebf8479f1a37878072f89dbf227e161b464345c9c1d8567501baa6da060fint,
    );
    let k = lemma_leads_double(
        k,
        p,
        0x77d8478757f96f1d286ada60ce8335d1bcccbcb568a1cdf8c268c9694250f31eint,
        0x54ae88f509734c732ae52c98bccf9928e557923297fa172a98fa2ba2e16a983bint,
        0xd95f37764b743c597565d7a009db30e5502af684e94da9d625d479a4da676426int,
        -0x1881793f9b74657d33f2a97fc72e5d02eb6fb75acf416d65645ad068392762fbint,
        0x895e8edec3c40a259de1d9370827cda0112cc9663a09608e1217d4871b990163int,
        0xb8928f717a4da91acc7a45d9d249310519856b9f9f6282287080ea572a7931fbint,
        0x7698e1f61db2f23092b6eba70285a5873fde29b340c3a5613b60a859f6124d93int,
        -0xee1571995140b07f93c4576c667740d76348800e3c60009083c535c427b07f4int,
    );
    let k = lemma_leads_double(
        k,
        p,
        0x895e8edec3c40a259de1d9370827cda0112cc9663a09608e1217d4871b990163int,
        0x7698e1f61db2f23092b6eba70285a5873fde29b340c3a5613b60a859f6124d93int,
        0x36a248d4b2142e8d6cb762d846055b230335bf0185fd6c14ebf656324aa5edd8int,
        -0xaa842b3ac3c18689a1e20702a2a6dbf4faae56de236b7764778852d37efb5138int,
        0xeef3b287b5a46d4909f716ae66a1ece8453681b87bc64609459684a44649ae7bint,
        0xba8dd9a08b317ab5961e994d9063409a44fe8999d93afcd0443cc4528120b01int,
        0xf716d67f8160b339c4ed2b087d381d83c5358f9f296b2ee6159471fde648b50dint,
        -0x15addacca1cf008f571dafc0db0e1f04de45bdc5b106a0f3f43fd7ee0ddbb920int,
    );
    let k = lemma_leads_double(
        k,
        p,
        0xeef3b287b5a46d4909f716ae66a1ece8453681b87bc64609459684a44649ae7bint,
        0xf716d67f8160b339c4ed2b087d381d83c5358f9f296b2ee6159471fde648b50dint,
        0x2002ed545f4921c8fbf9a5f6f5fa2c8edef4a2331a1403d7aae2f2cc3cf48b85int,
        -0x25f52bbb63c8c4666e20b9e66aa8b072837e31bbaddae42c4adc6076abdbbf03aint,
        0xddd6a248aa8a81bef23d1d6273183e3c4c927a47ba9a1f8e7e4c1da09924caabint,
        0x400bb5dad29d530834f1da038b8454dbe580490eb8004f8829bcbf08c267488int,
        0xedf896615f1d2f76d4b5ab7fa3dc3d4e552c21fea2d3332a7e2eae128ede8750int,
        0x223d41f8ff7864e812d0bd99ee7571ebfce2b74b7e2a8de81b6c5d6970af14dint,
    );
    let k = lemma_leads_double(
        k,
        p,
        0xddd6a248aa8a81bef23d1d6273183e3c4c927a47ba9a1f8e7e4c1da09924caabint,
        0xedf896615f1d2f76d4b5ab7fa3dc3d4e552c21fea2d3332a7e2eae128ede8750int,
        0xa1d08d14aa5fa9ca5041d4b64b39c48ef9c3911ddf9b783db72b07de10bb2e11int,
        -0x113de710b8733582e60cfa82c14c3305acb20f2837b8945cb98cc28b48d6fcdf8int,
        0x1bfa26ff75d1c2690ba7724bba713b88b4fb172047bf891839f01845143cf96fint,
        0x6647fb59f3e8efb660b4c228959a821e7e09f28fc136c3d22c91916bd16671a4int,
        0x7239f8c703406731ec3df46344d34e4d3508a734c834d0ce50628e972a62fd73int,
        0x7a899783c6526cf9c6ba2e272be212ac27472767cfd8eb7a7881c742a76fd7c7int,
    );
    let k = lemma_leads_previous(
        k,
        p,
        0x1bfa26ff75d1c2690ba7724bba713b88b4fb172047bf891839f01845143cf96fint,
        0x7239f8c703406731ec3df46344d34e4d3508a734c834d0ce50628e972a62fd73int,
        0x6b17d1f2e12c4247f8bce6e563a440f277037d812deb33a0f4a13945d898c296int,
        0xb01cbd1c01e58065711814b583f061e9d431cca994cea1313449bf97c840ae0aint,
        0xda7b5fffac2d087471887fd57d6ed53f305eb2590043feb932b21ce6bcbe4f1int,
        0x4385647fb61880dcbff66a33b8dc88480424f2be21ed47ddebd7a28356196e0int,
        0x771a61032e58d4d5e4b1dd26db25c4989ede8070ab5a36c1f6d9ac50ff02c3fbint,
        0xba765af58f6241c327f74935f7f2435eedcc7926dcc55d3be6543992e4551fint,
        0x971025834500814eef65b1fab4c931534f8bdf2f86b95928509899695c71f1fint,
        -0x4dc55c0f509ce47ba3ced631f9c501eb6c4b8b12014729516780c59f23985a2int,
    );
    let k = lemma_leads_double(
        k,
        p,
        0x771a61032e58d4d5e4b1dd26db25c4989ede8070ab5a36c1f6d9ac50ff02c3fbint,
        0x971025834500814eef65b1fab4c931534f8bdf2f86b95928509899695c71f1fint,
        0xd09ce7f0934d504499e52d3e5d9f7ab890e49f60d9724291073339595ee46115int,
        -0x96d9641520d8c0405301ee22962dbaa360c7d9f49acc2c2770d6514c9b9b90ceint,
        0x62a4306dc25adc41a82a6c54e5950e9b74ab072cf5ec13547a2180c01bc9265bint,
        0xa9ff591318b48da5c8f95d4b7cf22bb8bc70515c31827b4bc2437bbf9b95c298int,
        0x221acacf348d4b689b4d8f3912e69e64858a8e53f598a4036085ef06e1114fe1int,
        0x10ac9208f3e327290cf52fdbdca6e9c4643b6e1f2dec59f247780bd0dbe4e0e0int,
    );
    let k = lemma_leads_double(
        k,
        p,
        0x62a4306dc25adc41a82a6c54e5950e9b74ab072cf5ec13547a2180c01bc9265bint,
        0x221acacf348d4b689b4d8f3912e69e64858a8e53f598a4036085ef06e1114fe1int,
        0x26bfc29828a0c811598d9ad4dc75cc28a845b4e413816c4e030fd2f578a6340dint,
        -0x67b34f1d78aaa0fb10257371eb446c034a69a58d85922a8417837a35141217d2int,
        0x5bc0e7df71ea20932fc69f457bee496631aae9d33d68b3dbf6e2af71f8186351int,
        0x5dd7d6924e4d0bcc41b826cef246b798c0011dadd847c95af3e7f5c7439675eint,
        0x2277a35852ca89247d084586b1f279bd7c895bc7c7a253fd015944184f0ec8f2int,
        0x10ae594983069c7530d8592fdd06a127c1ee7008082dfa0e805d64a500c2951int,
    );
}

/// A multiple of the generator, step by step.
proof fn multiple_29()
    ensures
        leads(
            0x3fffffffc00000003fffffffffffffffef39beab69c5e7a13cee8nat,
            0xd9bb8b17c94899b639a007e6d4773665fb1e3cd5a85eda3ecb252475dc36e93dint,
            0xafb32b4433cbf4dec3a1a55af4cd9f395605e9417d3aafce86e4a404a7407dfdint,
        ),
{
    let p = 0xffffffff00000001000000000000000000000000ffffffffffffffffffffffffint;
    multiple_28();
    let k = 0xffffffff00000000ffffffffffffffffbce6faada7179e84f3cnat;
    let k = lemma_leads_double(
        k,
        p,
        0x5bc0e7df71ea20932fc69f457bee496631aae9d33d68b3dbf6e2af71f8186351int,
        0x2277a35852ca89247d084586b1f279bd7c895bc7c7a253fd015944184f0ec8f2int,
        0x83bdabd78ebb9258673ad87e51c29145a54066eeb2dd307f2a7046814c863870int,
        -0x3f2e9e873ef27da1b19e365998bde46cc2fa2623969d4936f48993c4910a74e0int,
        0x30ec7957e48e1f66f5724d087636d0eba40085f599ae5a221b5434ca166f527fint,
        0x43cbaa660f821152000b97901820d207cf32d1e76f1fcb9c4a177aec64eee821int,
        0x4f864bbcc19544cc897482b5d267ef10688dacb1621fdd4e1c38cb53c22d9289int,
        0x160a7025039277e778d7ae181e08bc9b9c146e7da40429c118de774d35ab0f9bint,
    );
    let k = lemma_leads_previous(
        k,
        p,
        0x30ec7957e48e1f66f5724d087636d0eba40085f599ae5a221b5434ca166f527fint,
        0x4f864bbcc19544cc897482b5d267ef10688dacb1621fdd4e1c38cb53c22d9289int,
        0x6b17d1f2e12c4247f8bce6e563a440f277037d812deb33a0f4a13945d898c296int,
        0xb01cbd1c01e58065711814b583f061e9d431cca994cea1313449bf97c840ae0aint,
        0xf8c950629a6ae0064ab65809d196bb7c77b83bec6fefa964ab0cad46938d7d0fint,
        0x3887bc22e24ffc836ebd27bcf7b9d32da1cb0b0302089081828d55bb783f4f28int,
        0x51a4486aaa58693d09405b5da85795c94e3683415f79f8d5cb6aaaca0d12a53dint,
        0xf1c6aa0f5109fe6bbce226eeb71d20cca0ef69cd9064b3a8d685a2d3c27d1371int,
        0x19dd46dfd341597ddab4efec57de93c3b43a28aeca657b5e98bbe3e4e787079bint,
        -0x1fcbcb31eff46cdac6be43f0ac74689f47fef1bb988b15e16f06c4ee76acc6baint,
    );
    let k = lemma_leads_double(
        k,
        p,
        0x51a4486aaa58693d09405b5da85795c94e3683415f79f8d5cb6aaaca0d12a53dint,
        0x19dd46dfd341597ddab4efec57de93c3b43a28aeca657b5e98bbe3e4e787079bint,
        0x1e24e23be43ebbe98edbe61394c3a6ed01a7f4444ac3d5e4cce9f95f1f1b30dbint,
        -0x4804cd322f2482af19e07c5a6b096f03c039058d121544b9be406a9c5ce0119aint,
        0xce6b18d2c17e439af6fcf8a067f812269b1a0b2de9f09e754890769cbe0a0a7aint,
        0x38caa5675d15d07cda3367255501b61fc3cccce7be2f8d1e9bfeaee76aa799bint,
        0x3b40d3a7d1a736b358f84b46b5ea317a19dce734401b04c9ec6d51b5cc34144int,
        -0xeb146a645188956ec9d8a49577fefd95e105164a7f9c446927de296e4a7abf2int,
    );
    let k = lemma_leads_double(
        k,
        p,
        0xce6b18d2c17e439af6fcf8a067f812269b1a0b2de9f09e754890769cbe0a0a7aint,
        0x3b40d3a7d1a736b358f84b46b5ea317a19dce734401b04c9ec6d51b5cc34144int,
        0xaf7b1bedf0c2915b1da8d0b4b2c1a7744f9b9aea67bf3dcd991f35c737a3050bint,
        -0x1ee3de05b39d4e2f7184c0765b2beba22fcbec5389fd5c11d36829a7c300afd6fint,
        0xe8ae31ddff32121fa277545d8a32d6564b9a4a7b9b806450de387cda1c0191caint,
        0x78498b63a124f7061e4e789416086a1431228e07116de20a050f90ff71fa3845int,
        0xb0a491693cea43bd90c8c8b874d134fd7e9c748ff1dcaa1c927f961323cf4362int,
        -0x12007f39460a4af113b087393f4b11f57223b983457b2dd773015b7b48361aeaint,
    );
    let k = lemma_leads_next(
        k,
        p,
        0xe8ae31ddff32121fa277545d8a32d6564b9a4a7b9b806450de387cda1c0191caint,
        0xb0a491693cea43bd90c8c8b874d134fd7e9c748ff1dcaa1c927f961323cf4362int,
        0x6b17d1f2e12c4247f8bce6e563a440f277037d812deb33a0f4a13945d898c296int,
        0x4fe342e2fe1a7f9b8ee7eb4a7c0f9e162bce33576b315ececbb6406837bf51f5int,
        0x13fc0ac0cceecbfcef5b641a46ebb694322a1e2ce1795f62409055263ab9751eint,
        -0x9cdce6b5d89e462881eee5ee63cc5083c5c434425271e417c272c149a80e555int,
        0xbe4c429ac2177a6edd5a474d59eb6e47e6aeb2810efecbcd420d1aad4451b94eint,
        0x18f61bdcc01eb5da220885e079b4219b2e33e5ac67340dfaed9907925fb9e2aint,
        0x4bc2efcc8c0c593d265a217f56520c6f6d6d9455d27f07c254791c268e05e69dint,
        0x34efef145c1c4ad1eeb09946ef455fea7107356e38859b47e03aedd83ad1f77int,
    );
    let k = lemma_leads_double(
        k,
        p,
        0xbe4c429ac2177a6edd5a474d59eb6e47e6aeb2810efecbcd420d1aad4451b94eint,
        0x4bc2efcc8c0c593d265a217f56520c6f6d6d9455d27f07c254791c268e05e69dint,
        0x5a5373071c8410c59f30302988b7937d96d93d0326acdfadefdcd8af26e1ccfcint,
        -0x172e967a8c8c8fa68b76590ed3efe3d2442672e732aebae04c18f0fe052a8c1cfint,
        0x4e23024a1c68b25ee17ea2d3e7769c633a476d8fa41304bb62204c561d17997eint,
        0x1fdec814ea378553d7e377fbe45ba12f906efad960160d73d4933123dea0740aint,
        0xfd04c72d743e92628b4304bc91509b2b248b0725a6bc678fb616939b212841a0int,
        0x27931062017b96ab867fdd1980e7bc66efd785c4c35105a33c47c4b5eacd177dint,
    );
    let k = lemma_leads_double(
        k,
        p,
        0x4e23024a1c68b25ee17ea2d3e7769c633a476d8fa41304bb62204c561d17997eint,
        0xfd04c72d743e92628b4304bc91509b2b248b0725a6bc678fb616939b212841a0int,
        0x3fe3b0951f395eb073e1f22902d9293b6a9263fe3218d9f309bb55820cc0f697int,
        0x36be5f02caedcea60e70e20a24dabc03a40198f89e1aa5458f10350e8a66a349int,
        0x7a2f33cb81a6a4959517cf355cfb4c652e1b1e92371cede8490513bc8cd2fe54int,
        0xff1db6c1792d9910c6180903497400ead70382ec11f04ed164e4c7bcefba43fint,
        0x8a493462e56bd3eab999d722224f9692055ccbc90c102760e570afbc6ad1ad7bint,
        -0xafe2d60d32650d510019d6389c2a7936d737d6e703c4616dde3d7ecd117f2abint,
    );
    let k = lemma_leads_double(
        k,
        p,
        0x7a2f33cb81a6a4959517cf355cfb4c652e1b1e92371cede8490513bc8cd2fe54int,
        0x8a493462e56bd3eab999d722224f9692055ccbc90c102760e570afbc6ad1ad7bint,
        0x12cf251aa4cfee094ccf2904f7f6ba0dd636e60fa7d239baa9ad8e7a31f1de29int,
        -0x9aa0fc601cb29b99417535446af83e07b932a192f0d0cdbc55e3ddb53c3082b9int,
        0xd9bb8b17c94899b639a007e6d4773665fb1e3cd5a85eda3ecb252475dc36e93dint,
        0x161c8d4c70644fb06a1f0e57f3c127f5e9ef8409e8afe870109954b39dfc354int,
        0xafb32b4433cbf4dec3a1a55af4cd9f395605e9417d3aafce86e4a404a7407dfdint,
        -0x7052e77351ee501c44596bf0d21c72f21d156920c9fb97de5013da7d2de2737int,
    );
}

/// A multiple of the generator, step by step.
proof fn multiple_30()
    ensures
        leads(
            0x7fffffff800000007fffffffffffffffde737d56d38bcf4279dce6nat,
            0xfc5d713aa666bbed96e5a0a04146aa66e5abb7b7f8762e6f6c95c367fc2f622int,
            0xd80438a484ffe5e17c70a9f77954a9460ccbc8333c422917ade32cc5306445f2int,
        ),
{
    let p = 0xffffffff00000001000000000000000000000000ffffffffffffffffffffffffint;
    multiple_29();
    let k = 0x3fffffffc00000003fffffffffffffffef39beab69c5e7a13cee8nat;
    let k = lemma_leads_previous(
        k,
        p,
        0xd9bb8b17c94899b639a007e6d4773665fb1e3cd5a85eda3ecb252475dc36e93dint,
        0xafb32b4433cbf4dec3a1a55af4cd9f395605e9417d3aafce86e4a404a7407dfdint,
        0x6b17d1f2e12c4247f8bce6e563a440f277037d812deb33a0f4a13945d898c296int,
        0xb01cbd1c01e58065711814b583f061e9d431cca994cea1313449bf97c840ae0aint,
        0x508a4103aa4fb9b44ed1b547e7191e548c4de6f104a4ea3dfb5f1e0d0cb781aeint,
        -0x22ceea36a0c59ce8e0b57d2108468a02d964e1d86658e9abdf674f9f42a66371int,
        0x431dddbe570449d1058ecfea6167426f8962f097056454199c2b610ac035ef13int,
        0x1956b34c8c3f01db460a3fab0f661dfee8acc50bd41224ea9b2413677c90c8a2int,
        0x30f4414edd73140f985b14d04985d969dce47aaf6350f7842899fd547f0b1b2aint,
        0x2f629d6bc65fea4de3e5745f4d2818bb388601998d4ba04ea26e24e0d38c669bint,
    );
    let k = lemma_leads_double(
        k,
        p,
        0x431dddbe570449d1058ecfea6167426f8962f097056454199c2b610ac035ef13int,
        0x30f4414edd73140f985b14d04985d969dce47aaf6350f7842899fd547f0b1b2aint,
        0xf99a98c677df5fa909f310e9c1e4d2e4d7661c86650dd382f74d78255dbb4d17int,
        0x2aac56af415961db58b99acba28937d86c9b7102f06f8b73d280d0aa61b54cacint,
        0x1e76d8e54486984edfd37b8e38573d6d672861491a6a5e836a8fdb7dd8b84e77int,
        0xf35e1a8f3283239b1321fb85f09d3582bf9857559dd1f2980e5525e0ec53548cint,
        0x8e58390b3841a2f022fc8d72bfc6b16c7a7716d89ee4a5016ef9fabfbcf03263int,
        0x23bc960fc68638a33f8f11ae62ed2767bed87b3cc43e4f24720c8421a86ef389int,
    );
    let k = lemma_leads_double(
        k,
        p,
        0x1e76d8e54486984edfd37b8e38573d6d672861491a6a5e836a8fdb7dd8b84e77int,
        0x8e58390b3841a2f022fc8d72bfc6b16c7a7716d89ee4a5016ef9fabfbcf03263int,
        0x1f7bfca8004798e8724c6e51d327af0c8b9dcfced075624ea910059c69819217int,
        0x18230988ef68584e746861f28ff57d4e29417684180e7596f9b4cde92eee3826int,
        0xe3bfc7dbbe3725bed6c62e067258481af657c81974217ea2c81a46d55ae99036int,
        0x3df433d76bc0de000eb88ef07ba23e0dd57d8650a27dae12b3f805d9fcdef13int,
        0x35ee06c5a15d51eb79304aff9eb59bfc8b3e77328e7b29f7ffc220e0f979023fint,
        -0x184361b004bad93ecdad93037d904b9a9d1f893e54599589bde0bd15076bf535int,
    );
    let k = lemma_leads_next(
        k,
        p,
        0xe3bfc7dbbe3725bed6c62e067258481af657c81974217ea2c81a46d55ae99036int,
        0x35ee06c5a15d51eb79304aff9eb59bfc8b3e77328e7b29f7ffc220e0f979023fint,
        0x6b17d1f2e12c4247f8bce6e563a440f277037d812deb33a0f4a13945d898c296int,
        0x4fe342e2fe1a7f9b8ee7eb4a7c0f9e162bce33576b315ececbb6406837bf51f5int,
        0xea61ebd2d3942e8ebbf5cd314577b42b656c17a07624ec80f29d95b705bc8078int,
        -0x6e77ad9101fc25444900564e4ea848a870b87ed80ac638093f055f5023894d4aint,
        0x8c0995352429d0625404bcbaebc01f37621faa596930e38fe50082cbaaab47ecint,
        0xd6972892d063220c0d07cea39c4f60a308a94f50ff3be2348d5fbf853d756278int,
        0x2253eafaa2e823353697947c2b4be806c527a8e0169bfa406cc6329225a50f69int,
        0x504e172246b11352b81baecaa3f15c786b0bdb616d35a00768e632bcd56f2ef8int,
    );
    let k = lemma_leads_double(
        k,
        p,
        0x8c0995352429d0625404bcbaebc01f37621faa596930e38fe50082cbaaab47ecint,
        0x2253eafaa2e823353697947c2b4be806c527a8e0169bfa406cc6329225a50f69int,
        0xa3de9069471faa342b1f94816143e859488a3c6c1ef406ca679068b552e10a7dint,
        -0xb9dce5293c36847e1d1ccf64cd34c3d1fc64f0c60987e028872ac6f43680fbddint,
        0x4185cbfefcca94f5de4b294b3b6b36843ac38bd49a5a6763d42bec0257804680int,
        0x68e52d654185765d853c2e7d16a88d43a65c452beb4f9dde15f99c4c28aed54fint,
        0x6c5836b733f2562bbad32a1c824c53b90eeaa7f9c08f5666917c4da78ac793e2int,
        0x2fb2b16eedaa3a8421e181bbab3288815f1bd76d7d4af038ee3f420f8e72b98fint,
    );
    let k = lemma_leads_double(
        k,
        p,
        0x4185cbfefcca94f5de4b294b3b6b36843ac38bd49a5a6763d42bec0257804680int,
        0x6c5836b733f2562bbad32a1c824c53b90eeaa7f9c08f5666917c4da78ac793e2int,
        0x6ac99a648f4e996286abbb092d030359e86bc32762e924230fffb328ce2a3d2fint,
        0x28140bf5c934c51d95757d0f31e79a81e32ea9f9131044b7b04f44d06a54bf01int,
        0x2bd9ef9f9b23d490f80449830dbfb8ebf2e10cf24b21480c98577f3a00459111int,
        0x2c8b929f423ed6fc601c3b6a252291c128d68874b2b061d8b6427d1ee93aaf70int,
        0x715718568ade37cbc71caa17d96d5e0059775d48ccdea5730d4cd4f1fc8479a4int,
        0x90a3a4174320f4b311b986b6225571ae9e9177f4686de9c0d33e90f70134b25int,
    );
    let k = lemma_leads_previous(
        k,
        p,
        0x2bd9ef9f9b23d490f80449830dbfb8ebf2e10cf24b21480c98577f3a00459111int,
        0x715718568ade37cbc71caa17d96d5e0059775d48ccdea5730d4cd4f1fc8479a4int,
        0x6b17d1f2e12c4247f8bce6e563a440f277037d812deb33a0f4a13945d898c296int,
        0xb01cbd1c01e58065711814b583f061e9d431cca994cea1313449bf97c840ae0aint,
        0xc83cad68877db0d60ee2b039e3e4f06ac590d19df1513ea7499b8dcad22b4137int,
        0x31775628f0413d426d69036edee56ef0089f958aec442db0370507a2c6f2cbd3int,
        0x69d62b0d935cd9594f745bbd392e7b08f923734b33cdf82e0dcd31d61be7f8a9int,
        0x9c9edd55aec9365cac9a52e6764bbb3fa473c2d10406825345876b3cbfaf527fint,
        0xae8e820d0714cd60bfda76d6427564a4166dd181a5a658aeb57cc3e129137c1aint,
        -0x307bbf88cb9e605eddb43e5ba23cffca8e97093249ea0b24bd73116c97ae309aint,
    );
    let k = lemma_leads_double(
        k,
        p,
        0x69d62b0d935cd9594f745bbd392e7b08f923734b33cdf82e0dcd31d61be7f8a9int,
        0xae8e820d0714cd60bfda76d6427564a4166dd181a5a658aeb57cc3e129137c1aint,
        0x322a3dbff95330d8cc3e4d62a6a23ad2df649aa57716ba592858da4a01f6a9faint,
        -0x3edae1b233a3cb11ec78f28349516b0a5b17dd7ed3229ec327af73dba04f1818int,
        0xfc5d713aa666bbed96e5a0a04146aa66e5abb7b7f8762e6f6c95c367fc2f622int,
        0x9d48717591be23fa86fdab925da286ddf35bf548a094bfeda67d85ba63edf50int,
        0xd80438a484ffe5e17c70a9f77954a9460ccbc8333c422917ade32cc5306445f2int,
        0x11a60cce160ec0c455c5aec9a9060527aafebe831370937bdd5d131a79ee2b36int,
    );
}

/// A multiple of the generator, step by step.
proof fn multiple_31()
    ensures
        leads(
            0x1fffffffe00000001ffffffffffffffff79cdf55b4e2f3d09e773958nat,
            0xb7683bb7439a44eec834adcc611fc91901a661c6acd117df993aeb88c3787051int,
            0xd17ee89fae871fec983a3d29587df306d5ba8ecfcd14fb14419916f2ca4a5496int,
        ),
{
    let p = 0xffffffff00000001000000000000000000000000ffffffffffffffffffffffffint;
    multiple_30();
    let k = 0x7fffffff800000007fffffffffffffffde737d56d38bcf4279dce6nat;
    let k = lemma_leads_double(
        k,
        p,
        0xfc5d713aa666bbed96e5a0a04146aa66e5abb7b7f8762e6f6c95c367fc2f622int,
        0xd80438a484ffe5e17c70a9f77954a9460ccbc8333c422917ade32cc5306445f2int,
        0xdb71ed36608df6cecd3b847f64e0c9d9e954eaf9bb12d5196e7cfefce9505babint,
        0x16f6d24ad6d08c13ea7b8bb4842df126d82509e0b873fb5a3a9a12ed2f198983dint,
        0x45ea7747211ee003ec18b546d3334dc2dad5710866c24958a35272447ec3fcceint,
        0xbc1c1e8f0b1dfa7bc000ae3d540ef282332c572b0a0aac492e7dfdf2cc96e4d9int,
        0x10884cb0ea879f2cb10e796faa24eea3951d1546ad225b382a0f469ab7171dccint,
        -0x2e696d625425d27ad56daea221f246e42976a1afcdde24905f3bfeecc3b6035eint,
    );
    let k = lemma_leads_previous(
        k,
        p,
        0x45ea7747211ee003ec18b546d3334dc2dad5710866c24958a35272447ec3fcceint,
        0x10884cb0ea879f2cb10e796faa24eea3951d1546ad225b382a0f469ab7171dccint,
        0x6b17d1f2e12c4247f8bce6e563a440f277037d812deb33a0f4a13945d898c296int,
        0xb01cbd1c01e58065711814b583f061e9d431cca994cea1313449bf97c840ae0aint,
        0xe094f9e6a5d2f3f42ca288838583bca6da59f333d1745928a3c7db55c049f0ccint,
        0x209d51d96ff971bfd0d098192f23e9e77df2493bf18c8a86b2d0aa479c2874deint,
        0x94cff09c97a94d70035aa280a75bf5c6dcbbbc0de5be05b9fbb6ba575a448b37int,
        0xc5050c064dd8713daa4c65eda666397777805355bae77ba3aafc77dc7aca280bint,
        0x74eae82bf151113f02b629bb44f067c84a3e5cc6c52432b6a0c71f0e782fd378int,
        -0x4536b3d97aa26954e1370c19e392d365e05d160a38ea59eca58b5f3304d42310int,
    );
    let k = lemma_leads_double(
        k,
        p,
        0x94cff09c97a94d70035aa280a75bf5c6dcbbbc0de5be05b9fbb6ba575a448b37int,
        0x74eae82bf151113f02b629bb44f067c84a3e5cc6c52432b6a0c71f0e782fd378int,
        0x2dc0c0c579ac7183eaf439248fdbd6eb07ee6afc5cf1e930cb52448f2d0bd9a8int,
        -0xd9b89f449446599f7082157dfae7c63801799ad8905b74902d64006668d0ac10int,
        0x8ab1282b90a0c1221ed0275eb08370a6a9c0c3f0dc07acf18f352e6b9a5f0017int,
        0x82d54e72e534650f42148c3b8842f6a319933f59308429c00370e58d169d845int,
        0xeb9df743cf75c706efe24564ab704896511c54cbaad048e1a8af61984d1d9b80int,
        0x1cf07f119a5312dbc0450e7cc9d7c6b393654224b586a6bb68e0915a95c01f8int,
    );
    let k = lemma_leads_double(
        k,
        p,
        0x8ab1282b90a0c1221ed0275eb08370a6a9c0c3f0dc07acf18f352e6b9a5f0017int,
        0xeb9df743cf75c706efe24564ab704896511c54cbaad048e1a8af61984d1d9b80int,
        0x7f0dc23e5824f6e6a2e10a108d993c07168fa07ac98771adf36f5313fcb1459eint,
        0x875a137fb4be5765b6cbbe2b43c8f92f463b9dedc6c47b4ca6cc01e09d71430int,
        0x969af3861fce51528199fb87230c62584556be3999b74b7dd45cc523de54e464int,
        0x3f0ea777683ad4f7e8aa9600d9d6b9d0b0d36a0eaa116e8630e0dcb6aba8570eint,
        0x5feb19ad42f14aca1bf8497f93e5cd2761a213364f5ce4c1e37a9705f4d02d2dint,
        -0x5e99fcb595e7657fa37822f9bf9f712962839135fe24e57a8d264e0e0898ecdint,
    );
    let k = lemma_leads_previous(
        k,
        p,
        0x969af3861fce51528199fb87230c62584556be3999b74b7dd45cc523de54e464int,
        0x5feb19ad42f14aca1bf8497f93e5cd2761a213364f5ce4c1e37a9705f4d02d2dint,
        0x6b17d1f2e12c4247f8bce6e563a440f277037d812deb33a0f4a13945d898c296int,
        0xb01cbd1c01e58065711814b583f061e9d431cca994cea1313449bf97c840ae0aint,
        0x64877c7b1fc2bc5b49b492d268d93e1da5dcfedecf0f1fa4cec9ba4437c5ab78int,
        -0x1116406cbbde044c64e9de92a977430bbcebf288e0d91f2fae7d7dc58c450c93int,
        0xbeb48221be1c41c5322bebf2c6928f2a950d160aa591eb3f325e65b92e5dc213int,
        0x277a20f4dead457ae09a208d204dba88510506571ff0c108ae986413fbc1e0cdint,
        0x5f93f59d4eba656a9b1211971e3cb0305fafaddf25571b636628dc4af4028f7dint,
        -0xfbf34aeb7faa04c0d0e92817b26192cf5d012b73f95f066546a034c7646744eint,
    );
    let k = lemma_leads_double(
        k,
        p,
        0xbeb48221be1c41c5322bebf2c6928f2a950d160aa591eb3f325e65b92e5dc213int,
        0x5f93f59d4eba656a9b1211971e3cb0305fafaddf25571b636628dc4af4028f7dint,
        0xd179f413ae3bfd5ab16b4fa72c59c7cff3de907e09f0fe2e6784aa84fdd8df5bint,
        -0x10dc6aa2b4da45c5b7a821fc98bbca08153724a19382fabc162c00e9ae9f160a6int,
        0xf17bf6f5500b620c23e94fba5feecafc8442c2dfabe40c92515648b46bf4e66cint,
        0xab685aa1713688aa09ad35a9cc65bc0938e905c5e23fd8c05a39811b3e40c039int,
        0x497d40eee3b88406b2f350ed2c97c119d8ebd34b9ca56fe9faa2be137623a1f8int,
        -0x298d07111e6804ddb6fa670b4631a34824e032ae4084cfb4318dad55685e5be8int,
    );
    let k = lemma_leads_double(
        k,
        p,
        0xf17bf6f5500b620c23e94fba5feecafc8442c2dfabe40c92515648b46bf4e66cint,
        0x497d40eee3b88406b2f350ed2c97c119d8ebd34b9ca56fe9faa2be137623a1f8int,
        0xf3651f1948b6da881c2419f75d7cf4b68afc8df485801ac4b19c7755233c6f0cint,
        -0x21fa2110fe0e84c454e3fdd5e2bf147200d55920bed98032c3dbbafa0b6398693int,
        0xc36ee91ed515d43ab989458074f83c4f91e3167749b3b858f28e6386ebb672b6int,
        0xe76920fc752ec63df3e365f7d89f02158448c257804690d50c627a563dd4d6feint,
        0xeb42b1f6eafb4bce7b4aef5df403dd994af5b51f8338c8b7ef51de2e4aee45edint,
        0x2bc894e1592610b169f537df6bb2e0587b445b6d89d03489e79685a1a950915dint,
    );
    let k = lemma_leads_double(
        k,
        p,
        0xc36ee91ed515d43ab989458074f83c4f91e3167749b3b858f28e6386ebb672b6int,
        0xeb42b1f6eafb4bce7b4aef5df403dd994af5b51f8338c8b7ef51de2e4aee45edint,
        0xbe23251d063af957b0c233d8caaad3245a71d35cee8041a4da77eb003fc49840int,
        -0x621edcf8fe02ec090809ae83b5d9b9edc987af5eadf6473fc34537e9cc889a57int,
        0xb7683bb7439a44eec834adcc611fc91901a661c6acd117df993aeb88c3787051int,
        0x8d382feacdc8d5400e81e7a174b35e8572c1e9a6b875656bf36fd8ad9e5945bdint,
        0xd17ee89fae871fec983a3d29587df306d5ba8ecfcd14fb14419916f2ca4a5496int,
        0x8ee9b5af02dbda6868f5bb389acd861ee501a585b14aa7ad72a44a183f80943int,
    );
}

/// A multiple of the generator, step by step.
proof fn multiple_32()
    ensures
        leads(
            0x7fffffff800000007fffffffffffffffde737d56d38bcf4279dce5618nat,
            0x1e1cf60927d20828cc4ab5104796b869ac80239fcae8524da1f3332ea674417fint,
            0x5c5dd30ca3247953f68213ce38359915fd74806048c1bce7035411ceaf18944bint,
        ),
{
    let p = 0xffffffff00000001000000000000000000000000ffffffffffffffffffffffffint;
    multiple_31();
    let k = 0x1fffffffe00000001ffffffffffffffff79cdf55b4e2f3d09e773958nat;
    let k = lemma_leads_double(
        k,
        p,
        0xb7683bb7439a44eec834adcc611fc91901a661c6acd117df993aeb88c3787051int,
        0xd17ee89fae871fec983a3d29587df306d5ba8ecfcd14fb14419916f2ca4a5496int,
        0xd6773521eb6e218ad74d5d85cc0a9a6f3f123dbe6a34ec9433b8a7639848538dint,
        -0x2b2f47949f062edbe5c420cb883362b6e6e3232c1c3c46463d65a5661375845cint,
        0x489896a1a073a10592fd7ccfa50b56234877908cef8eaef03490f1f1951a76cdint,
        0xb3ab8457d9d794c89a0116a0ad5897df6d13b2316af17af79ece3c4e91769bc6int,
        0x52224b5cf59820e1e009d42b38c0ad2d16fc29c8bec8f9ec135c00bdc44bd1f8int,
        0x5cd52d85dc205c5a5492b2dc691fa830f9486ea5058e2e3bf2612ac2ffcdecdaint,
    );
    let k = lemma_leads_next(
        k,
        p,
        0x489896a1a073a10592fd7ccfa50b56234877908cef8eaef03490f1f1951a76cdint,
        0x52224b5cf59820e1e009d42b38c0ad2d16fc29c8bec8f9ec135c00bdc44bd1f8int,
        0x6b17d1f2e12c4247f8bce6e563a440f277037d812deb33a0f4a13945d898c296int,
        0x4fe342e2fe1a7f9b8ee7eb4a7c0f9e162bce33576b315ececbb6406837bf51f5int,
        0x74fbcc00f83f05c522b19a41d601f5976a98acdeb88ec6db4fb9793db14a41fcint,
        0xfc3951d8e7a32562ddbdf20a756dcc5c7177d264c4b42861306bec810c8dd21int,
        0x58fd2d845d77cc5ca01977e6ead62efab5c82ed8ba6df4a03cb4ee9fb3da879dint,
        0x3575288ac2e69cffe760ca8223bf02710069b28aa937af865523aaf672dbd0f0int,
        0x23c92fd521a6ecfcfef5171d257a573defbcf9a089961c98c320043507d5a5f4int,
        -0x77db40eed9514b388671af35469758bc0d7e39181a12014235109237e692b54int,
    );
    let k = lemma_leads_double(
        k,
        p,
        0x58fd2d845d77cc5ca01977e6ead62efab5c82ed8ba6df4a03cb4ee9fb3da879dint,
        0x23c92fd521a6ecfcfef5171d257a573defbcf9a089961c98c320043507d5a5f4int,
        0xf0d694dc7be1553458e68efffc38c561ebb91b25c1907f1c5bcfe499ce2cf812int,
        -0x1977e5603e40670a597e23d5f8776d5d3c00c2c403fc94036ed1bd2c5fc33378int,
        0x769619184dac00641671c043d3f93fa9570ee72bc9c5e449a7c2db3ece520727int,
        0xe2930afb82085498eb6b7e2f07b2aea18d9c269578f7f4dbf663bbd70774351dint,
        0x1e3ee9ec280fdab2d74c0a36ce2a3e5d1f9ed81f4e2cf1c840cd1248dec02e82int,
        -0x1bd82be5a0a268c191e959eaa426a576a35d75992487f47bd7a14e0981bd83d6int,
    );
    let k = lemma_leads_double(
        k,
        p,
        0x769619184dac00641671c043d3f93fa9570ee72bc9c5e449a7c2db3ece520727int,
        0x1e3ee9ec280fdab2d74c0a36ce2a3e5d1f9ed81f4e2cf1c840cd1248dec02e82int,
        0x3c04b10e2030d40c3cce02cad7a27f18d87cf02a6e1cfe5919e9bc8fe7d30f3bint,
        -0x969d8bf7b62179c13a333d28fd43ff0cc6075e6f818139e6c25af59a6cc7341cint,
        0x3feaf7fc752bcffc9b183c90547bf82e046fe63c847c4abecce446d20f483d27int,
        0xe123314b00ea14c0d7b41b552aae8ade552297f280783be0eebbde715c253dcint,
        0x477917908a11a25c7ad4e81605af8753b494563065ad22936a3aad017300ed9aint,
        0xcd11c3e6e1e6b4fe103be0559f04b07b4328f69ed297d78f8360ab139a98e1cint,
    );
    let k = lemma_leads_previous(
        k,
        p,
        0x3feaf7fc752bcffc9b183c90547bf82e046fe63c847c4abecce446d20f483d27int,
        0x477917908a11a25c7ad4e81605af8753b494563065ad22936a3aad017300ed9aint,
        0x6b17d1f2e12c4247f8bce6e563a440f277037d812deb33a0f4a13945d898c296int,
        0xb01cbd1c01e58065711814b583f061e9d431cca994cea1313449bf97c840ae0aint,
        0x98b369cf6954a89376e40788db863a6783c9fd10121c4cb038ca75fe0dcf9a1bint,
        0x19c0e39f319ca8e52a64f8fa92babbcec149955baca987d6e5f8db4121bbe7bbint,
        0xca599af10276fdfe6e9c3e06aa13ce67678f989de87be772d3e46e5fb0893f31int,
        0x5b158b63cbf32c6940ccd123dd2d7002957d9ab746aca4e8673cb4e245fbc015int,
        0xa999bee543f3bcf04c92f684411d71c0dd233669e153f150d49c347e2a393d3fint,
        -0x5292b55500b75e35239f71afcb64f03e95fc0ab543319ff03f5176f81d9a9a19int,
    );
    let k = lemma_leads_double(
        k,
        p,
        0xca599af10276fdfe6e9c3e06aa13ce67678f989de87be772d3e46e5fb0893f31int,
        0xa999bee543f3bcf04c92f684411d71c0dd233669e153f150d49c347e2a393d3fint,
        0xafe96cd8f3779a7ae32b41413a9c0718e3d373a5ad02482a4e50c9908d8d88f2int,
        -0xf6bf1a912b214a9fb38a4ef3a86941ae358740f97417075974f8a8474c8f44fcint,
        0x92f50ffaeb3204849916e676af0a3100f2b233da33def38813f4b6baeac95f37int,
        0x78e0f7a866f171dbd00fc8597ec4e423080301490e46ab34ddf2481f9405d8d5int,
        0x25bd3bd7b114730af6fb59b847b784712db0eb38e1703ba0d05b205d74360f94int,
        0x26103d0e3616f3e56777294f1e32453d263bdc22209b26b7e737525fb15ec27fint,
    );
    let k = lemma_leads_double(
        k,
        p,
        0x92f50ffaeb3204849916e676af0a3100f2b233da33def38813f4b6baeac95f37int,
        0x25bd3bd7b114730af6fb59b847b784712db0eb38e1703ba0d05b205d74360f94int,
        0xa7cde4c843eede7aac73d8f7e8803d2ad47aad6fe34630e67f888a76c379a59int,
        -0xf9fdb8ecc6b10a96ad85ebddb6abcaaf66452a460785b19393d01f19ce954b78int,
        0x8b56be2085b349f24027a6d0b5381314650f034c9afef12a9c9281031a68693bint,
        0x6dfe4615ebd20e958ed8294f049aaa43f272cb14b66616a7c3080c28adf4b8int,
        0xc9e49141523157d7a88b4b552bbe0af78e215d2610937d21a32819248c1492faint,
        0x4fe67fbffb35a6c364114668096cbab2f082cd2a231d64a598f541117785f2int,
    );
    let k = lemma_leads_double(
        k,
        p,
        0x8b56be2085b349f24027a6d0b5381314650f034c9afef12a9c9281031a68693bint,
        0xc9e49141523157d7a88b4b552bbe0af78e215d2610937d21a32819248c1492faint,
        0xec7ac66029540de800244440f67577a50ad5dc9dcb0f81e1bd5ee9d37e69ab90int,
        0x917922fddbd7c682417a5ee316dee54922f6d9be3c32c9cb35f0461b39010588int,
        0x1e1cf60927d20828cc4ab5104796b869ac80239fcae8524da1f3332ea674417fint,
        0xda7298a3d405da71062f987bac52007d12d5c477fbd3f9c0426f1554ec2b62f5int,
        0x5c5dd30ca3247953f68213ce38359915fd74806048c1bce7035411ceaf18944bint,
        0x64e5a6a302a345f16d32e042ed56699a195cdce8ee1f0dd0993ee35717303985int,
    );
}

/// A multiple of the generator, step by step.
proof fn multiple_33()
    ensures
        leads(
            0x1fffffffe00000001ffffffffffffffff79cdf55b4e2f3d09e7739585f9nat,
            0xf7bd64f2f9351c793e316d2cdd3bde105c427e1267e01639607003c5048cd2ddint,
            0x26bb2675b14f6fe4ba4656aff632e0b959cf776703adac488082292dddb41f35int,
        ),
{
    let p = 0xffffffff00000001000000000000000000000000ffffffffffffffffffffffffint;
    multiple_32();
    let k = 0x7fffffff800000007fffffffffffffffde737d56d38bcf4279dce5618nat;
    let k = lemma_leads_double(
        k,
        p,
        0x1e1cf60927d20828cc4ab5104796b869ac80239fcae8524da1f3332ea674417fint,
        0x5c5dd30ca3247953f68213ce38359915fd74806048c1bce7035411ceaf18944bint,
        0x28f2a049df395feaf34a1ac4b9d14ed79fe51c1cd49d6a4aec93e92289096e63int,
        0x12ec002ef4d042bbd75b8f7d0d1f51ef556f709370cbc7c8cec16b6d1fd410feint,
        0x924a104a149443312c886a28d94ae2c765cfe19dd685c765a733bb321bf3723bint,
        0x68cb80a8c551ad61346e9562d175d297940f4ffc767f84dc29b80c4804cbaf0int,
        0xa926d37aa84db4c04653d3554f2aa42f81cb336ffec523b1f7577e044684163fint,
        -0x1295277abf85b43d753fade8c1ac300ab1d9bf85acb3ef17f6ba92d4a0a6b4c2int,
    );
    let k = lemma_leads_double(
        k,
        p,
        0x924a104a149443312c886a28d94ae2c765cfe19dd685c765a733bb321bf3723bint,
        0xa926d37aa84db4c04653d3554f2aa42f81cb336ffec523b1f7577e044684163fint,
        0x76fcc3b8dec52cbe1c6584dd2b12ceb245a036a856487d1c9a43c0c93d0b5328int,
        -0x5d8bddfb3e8b2d12c6ffcf286f33ac016f6a22bb3a8b6e0df52c5ffe1c2e00e8int,
        0x8fd4abd9788e348e50dbfe921a53ebda65a7261ed82205fa1b3d2c373809a71fint,
        0x374dfe008e4580510ee182ad0fbfc11afc90406edd084649dba1a7aa1f7d9555int,
        0x977f0bbea1d5f2589bc264f46bdb53c530b20f46c688df9fad1245f5d3c75e63int,
        0x12489bbf9ee9418267b5c62b8b71066008f463bf7d38d1d9d381b744ab5a442int,
    );
    let k = lemma_leads_double(
        k,
        p,
        0x8fd4abd9788e348e50dbfe921a53ebda65a7261ed82205fa1b3d2c373809a71fint,
        0x977f0bbea1d5f2589bc264f46bdb53c530b20f46c688df9fad1245f5d3c75e63int,
        0xa0383d13acbd2cc4c34932bee13b5e59cf96d1d3468bc0c96bd504bd709a3a28int,
        -0x34cc7b710ae3673cdd0d14a64224f8f59378afb446eb0e8682a4e3047c57f9b0int,
        0x531eeee2cd9e88fd45ecb2ce30dd3fb598ea3d5250018455b8a799172a7f4d24int,
        0x644658b3c360c5422944863c9ac3f131e90dd3df8ff57883717f82a8953c7522int,
        0x4f875786fcd11ba1d5112b6920985a8a98f52c315802f69a52291ab971e16587int,
        0x25feec579f44e0c996654ac288dfa205bc019a51c39f7b303def19b4dea9d6b2int,
    );
    let k = lemma_leads_previous(
        k,
        p,
        0x531eeee2cd9e88fd45ecb2ce30dd3fb598ea3d5250018455b8a799172a7f4d24int,
        0x4f875786fcd11ba1d5112b6920985a8a98f52c315802f69a52291ab971e16587int,
        0x6b17d1f2e12c4247f8bce6e563a440f277037d812deb33a0f4a13945d898c296int,
        0xb01cbd1c01e58065711814b583f061e9d431cca994cea1313449bf97c840ae0aint,
        0x5f2548556bc3a96feb64124921e0c0534ea9075b91fd7520e5c5bfb3165a819aint,
        0x8e8da01d114887118c45b998c6975a11c8da2d2a80c68269bb8314db0cc2fefint,
        0x5e05ef125fc5f7bf984f64c26ed21f5629355a5038ecf67cc1b0a68265931e04int,
        0x235cb11d8679388c3ac575d7febd561532f56c21c8337827220cc13d8ec69d1aint,
        0x98a5a96d6a7ac9e943cb907aeba641317c1214144c690a5d2eb682d50fe9b3daint,
        -0x40d4f894d81647d4ffca692915636714dedf4fa0ce6a4835d12a1a049485fdfint,
    );
    let k = lemma_leads_double(
        k,
        p,
        0x5e05ef125fc5f7bf984f64c26ed21f5629355a5038ecf67cc1b0a68265931e04int,
        0x98a5a96d6a7ac9e943cb907aeba641317c1214144c690a5d2eb682d50fe9b3daint,
        0xe04398830685690df5e208459a98defd8832b5196e2be0b8df82c16c77f7f5int,
        -0x668da0996c5acf3e84316177c1aa6eba67f1d6150cf98278d1b6df5ea6b61b17int,
        0x8e28605c6c1bcebff5c6b01155d9c0cc20d5c9e43471bb573bb66197cbe30dadint,
        0xc4765cbf3f511939ffe99dfdedde9f8c41be7ad0fbcfff9389c36918993cint,
        0x1c1fe69fcae7f266731eeb4d3c55b4414c8f701b0a8f8f1a82e62906208fe9bbint,
        -0x2a2ad8d1b17503edbdf541bf0b0d8b27b1ac257cad7e450b1ada46113af6aeint,
    );
    let k = lemma_leads_double(
        k,
        p,
        0x8e28605c6c1bcebff5c6b01155d9c0cc20d5c9e43471bb573bb66197cbe30dadint,
        0x1c1fe69fcae7f266731eeb4d3c55b4414c8f701b0a8f8f1a82e62906208fe9bbint,
        0xfcd96ffebeb7a47ee4590684b7c9a2e0b8fa03beabd83654d7d76cdbbcd60335int,
        -0xb543df13daf38efff63913922455903c3dd391c10939e25aca1f47ad691a14b6int,
        0xf49a46909cc3c3ae5f0e0e4175f697b4a1329f91ef877055bd355de11d80cd19int,
        0xf9bccd2d9014933d8a2bbb8d974d2bfa1fde8ebacc9da36e9772e4c380a09f7aint,
        0x8dbbca34791cf88ce183167846fd2483d0e1a00d08a2297ec22a39c9f20f6e1aint,
        -0x652f21f93b76c46d482ec2cc890ff780cfedaa2737e3f1eddb0e2237da31c2cfint,
    );
    let k = lemma_leads_double(
        k,
        p,
        0xf49a46909cc3c3ae5f0e0e4175f697b4a1329f91ef877055bd355de11d80cd19int,
        0x8dbbca34791cf88ce183167846fd2483d0e1a00d08a2297ec22a39c9f20f6e1aint,
        0xa740a7573695f572d3c174ed4560cbd69eee3a8e77be3734bca252c05a6933a0int,
        -0x203f0c176cc9acb3955cb7f1dfdb3cd6e5985bd9c1db2e6608eb88e4d1c88d730int,
        0x5b7ae21390e06e5b56426232ef256ed7a045afced3129cbc97b48e5218d6851cint,
        0x6d456aa84f7b42cc37b25f2257be39cf472d0d2406b908fc98d1368c702efb4eint,
        0x6af7384ce28c73a8fb684e06a357b16f357d446649625cb70ce4ac07fe23c695int,
        0x640a267ebaed7684c4666bf162bffc21be41670b4dffa372e707df9aa0a9cf8fint,
    );
    let k = lemma_leads_next(
        k,
        p,
        0x5b7ae21390e06e5b56426232ef256ed7a045afced3129cbc97b48e5218d6851cint,
        0x6af7384ce28c73a8fb684e06a357b16f357d446649625cb70ce4ac07fe23c695int,
        0x6b17d1f2e12c4247f8bce6e563a440f277037d812deb33a0f4a13945d898c296int,
        0x4fe342e2fe1a7f9b8ee7eb4a7c0f9e162bce33576b315ececbb6406837bf51f5int,
        0x7878b68ad2a204d83440137779a31f0de81af36b23833099eb30db2cf80e1b27int,
        0x758ed232fa4cbdd3b749e150215c9b84dff487b90b0cd3e80c93cdef9dc4fcaint,
        0xf7bd64f2f9351c793e316d2cdd3bde105c427e1267e01639607003c5048cd2ddint,
        0x38b1640e02786f432852f367b01b1134a09c7b0cadfbee86cc7c66926ad6da9eint,
        0x26bb2675b14f6fe4ba4656aff632e0b959cf776703adac488082292dddb41f35int,
        -0x4988dbf260a04a434247582a2e58b7f8319c187e37a0047d20fc2ff4c8a0e6cfint,
    );
}

/// A multiple of the generator, step by step.
proof fn multiple_34()
    ensures
        leads(
            0x7fffffff800000007fffffffffffffffde737d56d38bcf4279dce5617e32nat,
            0xc968cec584ba24aaeae351078934501b4d2bd42caf442997702a12c12c5b507bint,
            0xaf53793c8e4bc58a062d920ad0efe54012c8b7b26a8999239860ef57e9256f80int,
        ),
{
    let p = 0xffffffff00000001000000000000000000000000ffffffffffffffffffffffffint;
    multiple_33();
    let k = 0x1fffffffe00000001ffffffffffffffff79cdf55b4e2f3d09e7739585f9nat;
    let k = lemma_leads_double(
        k,
        p,
        0xf7bd64f2f9351c793e316d2cdd3bde105c427e1267e01639607003c5048cd2ddint,
        0x26bb2675b14f6fe4ba4656aff632e0b959cf776703adac488082292dddb41f35int,
        0x6b17744891c14fed2d65c73839d7005e1a4c8ec075408cf501561f9450e72b86int,
        -0x2aed583cd0da201298e7497105d9d8ea63866d3bf8e95b099e976dfc7667c8124int,
        0x9b90f0cc71226a5a22b59b95a0bf69e817e4d23c4f53a203f1bb1a00fe1de2bint,
        0x2ccc9d5af0803f90e46d541ad02c346c03aa5d133f741ce9148da646c5c139c1int,
        0x22bcd7cd3937dc721b4ecc4692c32eb61a89f63ec0ab8e33ebd2d5a02321666eint,
        0x63919e68c1dd63fdd76ae7af238c9bc1e859adad315c063f185492bacba18a77int,
    );
    let k = lemma_leads_double(
        k,
        p,
        0x9b90f0cc71226a5a22b59b95a0bf69e817e4d23c4f53a203f1bb1a00fe1de2bint,
        0x22bcd7cd3937dc721b4ecc4692c32eb61a89f63ec0ab8e33ebd2d5a02321666eint,
        0x4c99796ae98e55b9258b388a7b380f8a3fee10ea8da2f32ec08dd753aa34776fint,
        0x13ae2c4e72ae56d7bf08a86086544e92d86798fead3778e3f4ca4ebcbe4cba44int,
        0x4db157b7abf4be9b523159407321fa80761a350b59e22bf63e228ce1c2964734int,
        0x16eb7c19ecf9689107a3e071d88a517b0d6bbb1349232624bc4852c7b989a169int,
        0x43787f0bef7316fd663f738b4fe8406a76548de962fa38c5f3c5cd30d26ede19int,
        -0x14567532fb96274cfaa0064a52814e86a9192b96a6fc1e8d23d50a50618f0192int,
    );
    let k = lemma_leads_previous(
        k,
        p,
        0x4db157b7abf4be9b523159407321fa80761a350b59e22bf63e228ce1c2964734int,
        0x43787f0bef7316fd663f738b4fe8406a76548de962fa38c5f3c5cd30d26ede19int,
        0x6b17d1f2e12c4247f8bce6e563a440f277037d812deb33a0f4a13945d898c296int,
        0xb01cbd1c01e58065711814b583f061e9d431cca994cea1313449bf97c840ae0aint,
        0xc19659ff5a6e8747ab72c561f93b058b92ac88c37a5f9079206663b510adad0int,
        0x163b86884c009e59714935d44d7f7682368e0cdaa885cdfdbe3859e22e81c51int,
        0x515a5c2b5c8be7dd4cbd739261d6551620e1d6b8b12b1e32bc2a7f2b16a8d329int,
        0x92640c012fa0391757ef62077a6e453ebec00aa08c65ff5227ca853e90f3f3int,
        0xb73a18f19aae7e9a27c8b0783d5702c6dadd9bbc232c0138374a81b86d86a19fint,
        -0x2c492ad3fe2a91b590c5aeae774f137f400b99f17b463639e95d71a9382738int,
    );
    let k = lemma_leads_double(
        k,
        p,
        0x515a5c2b5c8be7dd4cbd739261d6551620e1d6b8b12b1e32bc2a7f2b16a8d329int,
        0xb73a18f19aae7e9a27c8b0783d5702c6dadd9bbc232c0138374a81b86d86a19fint,
        0x9c82adc5593be14823416d07f9f833db891a9f58ca31315a0dca08778edd591cint,
        0x927af37e40875ba35edc89dcba261d5d017f52d853952f96fa6ff0239d9bece8int,
        0x6fa0471754ef6e621119de5772c488c48a4b0d83f2cf1d66526fd06568bf77d4int,
        0x5faf867dd6d3749b931e62c4a71d83d624f17460573658fa5b7fe8758cb4a316int,
        0x8145b5a6507bae52b1f9061e581e48ad0b0cf420d1b4b0b6636acdc60fe84454int,
        -0x12820f35bfcf799773eb4b62af39bdeacb0c588a356b2843e7fd3736a738a459int,
    );
    let k = lemma_leads_double(
        k,
        p,
        0x6fa0471754ef6e621119de5772c488c48a4b0d83f2cf1d66526fd06568bf77d4int,
        0x8145b5a6507bae52b1f9061e581e48ad0b0cf420d1b4b0b6636acdc60fe84454int,
        0xff5fa2b8eaa15963bcf8f4d08ad28483801b21e4ab054838b84b2c1b7eec2911int,
        0x6fe44ff80b0d3145135f7c80f25130c89566b468d583b88648e182e9a5b05b85int,
        0xf68849425560ec635f6a997addf82e863b6ef2571c9b9270b636ebfb60179f22int,
        0xfebfa9e78ed9cc41eeb6727e270c3ee483d643c2ecfaf5cfa844b8e7b7a81ba9int,
        0x89bd903d03f97e4d9a173a09490b3e7640efd324e922d1bb29fbb671f0cb7a30int,
        -0x869380026dbf94d2fd7c556070eda7d87f47bd015ad50749e010ac5ed43e274eint,
    );
    let k = lemma_leads_double(
        k,
        p,
        0xf68849425560ec635f6a997addf82e863b6ef2571c9b9270b636ebfb60179f22int,
        0x89bd903d03f97e4d9a173a09490b3e7640efd324e922d1bb29fbb671f0cb7a30int,
        0x32057cfec2c8b40d8810f0fd0f1bc108f4d4bf6fbc21b9a5e7e521a26d065898int,
        -0x2926aabcd87921abbcf4d0b714af7b011c3d4875694aa5b47acf5fa95fecc5777int,
        0x5686115eae4ef47d7aab8ccc1d212187fd9f23d1fd328b227531f0d869eda59cint,
        0x9c624f1acd7f1577da6f01ad5ad19d4435293d2173c03ad446210d5745409a0int,
        0x810ebd4885a8653d3c2339e30a8e6692ab6d97760d344905c41231c32b9b2a0cint,
        0x1f43dd15fc5c7c47461588aedaaee3e95caac7b72b610df7888af5ce9e906cacint,
    );
    let k = lemma_leads_next(
        k,
        p,
        0x5686115eae4ef47d7aab8ccc1d212187fd9f23d1fd328b227531f0d869eda59cint,
        0x810ebd4885a8653d3c2339e30a8e6692ab6d97760d344905c41231c32b9b2a0cint,
        0x6b17d1f2e12c4247f8bce6e563a440f277037d812deb33a0f4a13945d898c296int,
        0x4fe342e2fe1a7f9b8ee7eb4a7c0f9e162bce33576b315ececbb6406837bf51f5int,
        0xfaa423937f8c1bf47c309e43f7fbf1010c092e445135e079e111eea484eae5fint,
        0x1423864bf405a294c5eb76751cffc3a054716ca98e7e0ded33e2c0388c67b23int,
        0x2a238587668c7a151d45067e00160aeba24c628744d79138e577f5785bfd6814int,
        0xf564febaa46fbab30cf2148704ba0d184090c24b6589bf2d8bbba675da8905int,
        0x2319896b2a51308b1e06bf2a1b919eb074082cbc3e63979a6d9f5e718b8674e9int,
        0x2b74b1dd09447f880dd431b1b7196ee927c69883fb070d0eccbff4541b8597dint,
    );
    let k = lemma_leads_double(
        k,
        p,
        0x2a238587668c7a151d45067e00160aeba24c628744d79138e577f5785bfd6814int,
        0x2319896b2a51308b1e06bf2a1b919eb074082cbc3e63979a6d9f5e718b8674e9int,
        0x8ef7af95992811d27114c308bc6fdb9f604cedeceaa0afac88469b7533a97871int,
        0x126539a56ec6a1fafdd8f3df81dc84b15cd049149cda84dfdea7589ee1991efbint,
        0xc968cec584ba24aaeae351078934501b4d2bd42caf442997702a12c12c5b507bint,
        0x4fd7b66e90db945687307d7b2539620f60c6aedb0feb8353d2201a3aa079fec2int,
        0xaf53793c8e4bc58a062d920ad0efe54012c8b7b26a8999239860ef57e9256f80int,
        -0x58f287b7e84d68df1eee7a1aa0ebc3ae367135dd86984d501246cc089bf13e20int,
    );
}

/// A multiple of the generator, step by step.
proof fn multiple_35()
    ensures
        leads(
            0x1fffffffe00000001ffffffffffffffff79cdf55b4e2f3d09e7739585f8c64nat,
            0xf0785e30dea1e01e4ee993d524a3e40a127a29f5fa8bb63b95711909d04855d4int,
            0xe0f18a0a6724ecece48170cc9c2df913b802d92edeb9a337dc3f533f724f9c1aint,
        ),
{
    let p = 0xffffffff00000001000000000000000000000000ffffffffffffffffffffffffint;
    multiple_34();
    let k = 0x7fffffff800000007fffffffffffffffde737d56d38bcf4279dce5617e32nat;
    let k = lemma_leads_double(
        k,
        p,
        0xc968cec584ba24aaeae351078934501b4d2bd42caf442997702a12c12c5b507bint,
        0xaf53793c8e4bc58a062d920ad0efe54012c8b7b26a8999239860ef57e9256f80int,
        0x6693eb8873b08036c280692a62d8326e3d8102cb893da346d647b54a158a61efint,
        -0x14ee01dba1ff36edbfe942c2c0eeb538729bfe9774f9a14efa891fe631e27dfb8int,
        0x39aeda019815d28b7378c79cd2242650429742a8a4c394a0b068ed9073c6f6b9int,
        0x291a35293cb3852920afd36e99334684e8a0a4a19d84d8b785de8007db5a9a8eint,
        0xa6cacd49da17e3bada3010244fc781c1b60e3a94aab43a20abe7d72b4590c6f8int,
        0x3997238a25cf01b62f5b83744c31f83ed5635937d9229444b551d0ad599fe85aint,
    );
    let k = lemma_leads_previous(
        k,
        p,
        0x39aeda019815d28b7378c79cd2242650429742a8a4c394a0b068ed9073c6f6b9int,
        0xa6cacd49da17e3bada3010244fc781c1b60e3a94aab43a20abe7d72b4590c6f8int,
        0x6b17d1f2e12c4247f8bce6e563a440f277037d812deb33a0f4a13945d898c296int,
        0xb01cbd1c01e58065711814b583f061e9d431cca994cea1313449bf97c840ae0aint,
        0xe091a1846abc8fe2c94233d1a2df3f348d91e0197790b8a5037a3edda2b3b1c2int,
        0x2b57f4944d9e6ef491f891aaf488e4f3522cb63a542a5d9998ef58c4a8389c98int,
        0xb17e6bfed71f7f05e67541467d5e204f4b7661f3bd38ef80bbd444e18580c3a4int,
        0xc4ff2d80ddb1e5a763bee4e45ca2dfb0f1adbb4f01fe4f8d0c339fa83926a5efint,
        0xbd586b987422eb9d9a8d2cbb5b0c59d45181fdc306289cf22ae9bbb57a11b0c9int,
        -0x6919c7e7347eb0bf5fe37f72f8fded9459bb9b5e6c9bdb3f398b6af85c90c329int,
    );
    let k = lemma_leads_double(
        k,
        p,
        0xb17e6bfed71f7f05e67541467d5e204f4b7661f3bd38ef80bbd444e18580c3a4int,
        0xbd586b987422eb9d9a8d2cbb5b0c59d45181fdc306289cf22ae9bbb57a11b0c9int,
        0x4439830783f364ff8326337036fd5b26868085c15009f456a82a1b0880ff7d67int,
        -0x10c4422f32e366e2767f35946585af452e16d2c141592340f78c660d6ccc4c891int,
        0x39ab958349697ab9f282dc26f0393ac0d35dc8fcfb59cf2e51bd8abd7446cc97int,
        0x122e9a87acb15bd5e6a77a9d69058d17bee89ba786e4a1113e2e07ae6ea8946eint,
        0x8695cea513ae14ba940a4a4c21ed6ba5abd6f553af0bb38b0977265386e375adint,
        0x1feeec3f1b5db9f7e64bd2fd304c77db924ffcbba68c28df42ce25712f0e673bint,
    );
    let k = lemma_leads_double(
        k,
        p,
        0x39ab958349697ab9f282dc26f0393ac0d35dc8fcfb59cf2e51bd8abd7446cc97int,
        0x8695cea513ae14ba940a4a4c21ed6ba5abd6f553af0bb38b0977265386e375adint,
        0x2f41d190d91e77680712007969891e3ca1deeeaa9415496a1d4e302a4df1e551int,
        0xab6a38bddcb2b56e860c4690a45eb78b05b99b5d08b70ae961965da2c0d09b6int,
        0x2ff9fd617c484d71768ef596387a74946231ded854ce0c17fa9f136403a53afbint,
        0x8b93bdf4f8e81a8d5a453bc41949796146dc8a98a9d5fcc25a521c6a246d088int,
        0xa0df35776489c430d028bcbf4df46e55894056910c81d6f03eb8c7e9fd19b663int,
        0x1ca18f5505a22778e5426c1ebe62abee0adabc94bfae7cb655e64b259c18db4int,
    );
    let k = lemma_leads_double(
        k,
        p,
        0x2ff9fd617c484d71768ef596387a74946231ded854ce0c17fa9f136403a53afbint,
        0xa0df35776489c430d028bcbf4df46e55894056910c81d6f03eb8c7e9fd19b663int,
        0xe60a0cb18c966612d38cc039609f7ff3a2de07efeaf428b0a465c13b23621739int,
        0x1062477fdc44bb68e9149f895bd83d31b7ed7ad75b9df59824182a77edb691432int,
        0x547afdf3299ed7a0ac6898a1328e9cb4a8fadd5eb0e8316d1f958d1cd1ad2f22int,
        0xceb60f34d5d46aafa3778dbf048956fc56050132c3e0b9127ebb15af79385a67int,
        0x679d3ace3732e0d3b712c53df0cfd443a95160889165ef5d6d21e7c2909ca7ebint,
        -0x20cd555c657e123111d77ffe1b4b46a73121fd7d9902b5244d20fa410fa6c403int,
    );
    let k = lemma_leads_next(
        k,
        p,
        0x547afdf3299ed7a0ac6898a1328e9cb4a8fadd5eb0e8316d1f958d1cd1ad2f22int,
        0x679d3ace3732e0d3b712c53df0cfd443a95160889165ef5d6d21e7c2909ca7ebint,
        0x6b17d1f2e12c4247f8bce6e563a440f277037d812deb33a0f4a13945d898c296int,
        0x4fe342e2fe1a7f9b8ee7eb4a7c0f9e162bce33576b315ececbb6406837bf51f5int,
        0xc75a30555e78aad072191476bba91d8369aa498d01b13b2b7b4707e205f20a94int,
        0x119be033535bea971666455e3925c949b16a1fb4a656ccaf0503b9adcb86e2faint,
        0xdd3dbbff2257ce0f721d76118265f1053b137a283c3fb0f2a7f335d9b7062d39int,
        0x9b3d56eb59437d380905cd4680822fdedb71b8a530e749fae9ffddaa990c3961int,
        0x6f372c9ed944df7a248688aad0595c703adbabfe55c47f083246814afb0d29ceint,
        -0x6a7f9004a7d0198967e337c0196fd100974c09d9a9156a9641eb2c63be3862fbint,
    );
    let k = lemma_leads_double(
        k,
        p,
        0xdd3dbbff2257ce0f721d76118265f1053b137a283c3fb0f2a7f335d9b7062d39int,
        0x6f372c9ed944df7a248688aad0595c703adbabfe55c47f083246814afb0d29ceint,
        0xda1583e3ad79ae5ecff6ebda1b774dc7dc00d278dd25680f869cc30585dcf0fint,
        -0x231c325d4d82fcce539615d6ec2e84794397a6e5d3c92fe1c3a338e07c6d6c614int,
        0x69345c5e906c50c42d4b4284ea692ee6eaf8f1dab29db045e89388fb2f796363int,
        0xb9c8a66f64892766644d1da71f147d3577a180bdd89b138a7dc65435267af4int,
        0xb60cfccf9cc9f9342496265a4eede7034b7953051470380eb8e6cb8276320d65int,
        0x62d9bbfbf628b022e639139a660206895aa78189e9a0c0758583881c60d59a9int,
    );
    let k = lemma_leads_double(
        k,
        p,
        0x69345c5e906c50c42d4b4284ea692ee6eaf8f1dab29db045e89388fb2f796363int,
        0xb60cfccf9cc9f9342496265a4eede7034b7953051470380eb8e6cb8276320d65int,
        0xd3718f57d9db98eb139f5f4e3a41e28d035f899d9e91a8107efe15b79a27c629int,
        0xab06f0a3dd3b8757bb7286085c84ef7b6546647221911a7fa388ae2b7afca27eint,
        0xf0785e30dea1e01e4ee993d524a3e40a127a29f5fa8bb63b95711909d04855d4int,
        0xaea464ab5b95fa2450503496f36e31bc42ee42e9fa59d0b1890841cae159aa09int,
        0xe0f18a0a6724ecece48170cc9c2df913b802d92edeb9a337dc3f533f724f9c1aint,
        -0x6fb90e42fc417ebc0662ef56db3f6a0edba12939efc9a8e5870aed605d9f1c68int,
    );
}

/// A multiple of the generator, step by step.
proof fn multiple_36()
    ensures
        leads(
            0x3fffffffc00000003fffffffffffffffef39beab69c5e7a13cee72b0bf18c95nat,
            0x3b79f0190d30ec507df4c9433006dc3f98108e8c840eecac60f2ee72576300c2int,
            0x7800cb8410e7425b27cb4ae12d2f1ce2dd35fb7758ad99e0729f0c20d9250146int,
        ),
{
    let p = 0xffffffff00000001000000000000000000000000ffffffffffffffffffffffffint;
    multiple_35();
    let k = 0x1fffffffe00000001ffffffffffffffff79cdf55b4e2f3d09e7739585f8c64nat;
    let k = lemma_leads_double(
        k,
        p,
        0xf0785e30dea1e01e4ee993d524a3e40a127a29f5fa8bb63b95711909d04855d4int,
        0xe0f18a0a6724ecece48170cc9c2df913b802d92edeb9a337dc3f533f724f9c1aint,
        0xcebb240edc61826baaa5297c41e7a8137af81c8113dc9c20ee1933583e3f7494int,
        -0x13a582136fa55f6bbde28b0164318aa02e5247b4acfba0383efdf0f2d123ca763int,
        0x38b99d61b61e038e7d6f97585d360043d597ecf18a0cf66f490fbbdd58dd247cint,
        0xa6f1b6d64468ca07b274785246b4fc68ae9c160b1d8c71865bd403feb37f5a94int,
        0x85e9669543f333cfa4fb024424981e49a268d5f3bc5d4f77ee1ce4ddd5bbda58int,
        0x9461d15f9c081cc8dbed6e71565527c74a45a77e2ea41e05c7b75cb7370f0f92int,
    );
    let k = lemma_leads_next(
        k,
        p,
        0x38b99d61b61e038e7d6f97585d360043d597ecf18a0cf66f490fbbdd58dd247cint,
        0x85e9669543f333cfa4fb024424981e49a268d5f3bc5d4f77ee1ce4ddd5bbda58int,
        0x6b17d1f2e12c4247f8bce6e563a440f277037d812deb33a0f4a13945d898c296int,
        0x4fe342e2fe1a7f9b8ee7eb4a7c0f9e162bce33576b315ececbb6406837bf51f5int,
        0x8b391b2d59c8e63ab3fa0a40b860337b5aaff347b3228e323104d498da3b6418int,
        0x1b6462dd7ddc8952db3328c0c5514b67d2920af8996d473e66622b898aac7d2dint,
        0x100cc5db446f83f8b506e69c7ccf1023d624d9b01cce5d610bd6ae6d0b11e615int,
        0x4bb71040a84bceb3b2d90b454393aba1ea65bcb0b349bb2eba6fd2d012550ae7int,
        0x39652210041b0ed6ff8c4e944c72adef086e8e3a90cc3d91d9b98e6c63f9200aint,
        0x161eebd382290e1e4748816d32664f18f62f7470aa7386dad525f83c7289e4baint,
    );
    let k = lemma_leads_double(
        k,
        p,
        0x100cc5db446f83f8b506e69c7ccf1023d624d9b01cce5d610bd6ae6d0b11e615int,
        0x39652210041b0ed6ff8c4e944c72adef086e8e3a90cc3d91d9b98e6c63f9200aint,
        0x3d46e9ef5aed4aa9fea6810de4d5e822316732bcbdfbff222b7ea641d0f4c236int,
        0x187532541cb1f002c8a320449c0a57fb264ff31de7c3334c3bac0d6f6e028cf0int,
        0x897b2e8a15224a834ed3055d1fb73dc1456b55e4c81f6a272a221932e30a3c69int,
        0xeaadf20e4ab41c987998e9f42faf012d1f69e2622f7a47abdf029066ee8252fint,
        0xc672d5fa0f1c427c70590789afcfc04bea0e0ad7264f681fa4d59bd0f2ee7793int,
        -0x1d10f2196b14d2e118514d02e4679280ef1040b87e4cd2c2fb326032613a8aabint,
    );
    let k = lemma_leads_double(
        k,
        p,
        0x897b2e8a15224a834ed3055d1fb73dc1456b55e4c81f6a272a221932e30a3c69int,
        0xc672d5fa0f1c427c70590789afcfc04bea0e0ad7264f681fa4d59bd0f2ee7793int,
        0x2d45701fda7e3d7f4ecb15fd4fefebe30788a1a6861a4f6ca1431cd8c329e135int,
        -0x974f324a1ab7f76ab1f7eac50ecb1c51864ea5375c4c50aba5bf127b0ea3bfaeint,
        0x6fedd00ca92b1fee729065e07e3045956e800dbe44934b24dda8d83d29752b79int,
        0x8017c40dd198911d84974ca168db17fa188569f53886d4f9176954248716f52int,
        0xa3d3d10efa2d60ae0dc4345115bdad6fe27826ff3d7592fa19175f5d99edfb18int,
        0x484c7e78f91a09d19a1ee0974484e95c847e4b551f5b7f78092c0ec96ad00fbint,
    );
    let k = lemma_leads_next(
        k,
        p,
        0x6fedd00ca92b1fee729065e07e3045956e800dbe44934b24dda8d83d29752b79int,
        0xa3d3d10efa2d60ae0dc4345115bdad6fe27826ff3d7592fa19175f5d99edfb18int,
        0x6b17d1f2e12c4247f8bce6e563a440f277037d812deb33a0f4a13945d898c296int,
        0x4fe342e2fe1a7f9b8ee7eb4a7c0f9e162bce33576b315ececbb6406837bf51f5int,
        0x6d1ab84b6bfc3dd20fe5eb07933ff7ac3f81ac780b4e9c3ec8f773b97dda779fint,
        -0x20f9e680633a0fd0d41e38b7e709ac5834f8eea27a6332de83f2cd08c39ff26int,
        0x3c61874c7d64ada92d7ed92171fa20ebb2ae43fc8080832736f29b39ee5f123bint,
        0x2e7fc3ba5c73010eaa5f4653af348858f19ea30ed398e4f45951dbadb7bbcb89int,
        0xd4348dd68412287c42f022264af0340802f40a1d6b87d0a037402af5de7ec88eint,
        0x15f81c555041e9da7214936be489b0a119fa0ec220f39ba71b0ff1e7bb2b4424int,
    );
    let k = lemma_leads_double(
        k,
        p,
        0x3c61874c7d64ada92d7ed92171fa20ebb2ae43fc8080832736f29b39ee5f123bint,
        0xd4348dd68412287c42f022264af0340802f40a1d6b87d0a037402af5de7ec88eint,
        0xf5c92d577891d8d5e9308b7380703c776943d20df29457a43a089efed2324e08int,
        0x16cc087753f1f9f4526c2fd20a7051b10d90c0091f22aa703e476bd243da7fbe8int,
        0x8dc24eafb4b183b2b8ba2e6585ae7a60cb2f8dca576bf1480770e09e0f3e252bint,
        0xebfaaee294250b380a8f193afa3f4da13fff7af1b3c415ba141acd4a39136961int,
        0xd21dcc8666feb61fd313cb677f59bf1a6ab00f9d3cee160ea98ac69f975af70eint,
        -0x4e219238a0387408e791ddba9f810c9164ed77a61f6872892f140e0af88888e4int,
    );
    let k = lemma_leads_double(
        k,
        p,
        0x8dc24eafb4b183b2b8ba2e6585ae7a60cb2f8dca576bf1480770e09e0f3e252bint,
        0xd21dcc8666feb61fd313cb677f59bf1a6ab00f9d3cee160ea98ac69f975af70eint,
        0xe88b7de3f5fa482be7b122800f456e1688c08618ee100504d19da17644a084fcint,
        0x923c233cde9ea68b2190cca9cb2ea08f4d362702668848fb8b23e96b254f8c18int,
        0x778f226b43cd0f385a5b1f3ae42f91b7864a0e1e91276004c498cffa620a78e3int,
        0xd33d202ff48849fda599b3a637366077a288dd34195503b900bd559a2071eb29int,
        0x4347159ec7efc5de320e6d8b1ab841eea08e6371dbb8225589d1fb26bd7f53a6int,
        0x142a78d1e4f527d48a393617f364935320ded6e6f7f2436a5877501a642793d4int,
    );
    let k = lemma_leads_next(
        k,
        p,
        0x778f226b43cd0f385a5b1f3ae42f91b7864a0e1e91276004c498cffa620a78e3int,
        0x4347159ec7efc5de320e6d8b1ab841eea08e6371dbb8225589d1fb26bd7f53a6int,
        0x6b17d1f2e12c4247f8bce6e563a440f277037d812deb33a0f4a13945d898c296int,
        0x4fe342e2fe1a7f9b8ee7eb4a7c0f9e162bce33576b315ececbb6406837bf51f5int,
        0xfe3b635c4752201380648dd222ea1a37a8b56b31539ffdeffff0bab1e20a6457int,
        -0xc61462dac741d140473b1c0bcbfa416cba54ea4ad4034e2d4723f154be2f986int,
        0x3b79f0190d30ec507df4c9433006dc3f98108e8c840eecac60f2ee72576300c2int,
        0xfc79e6f30d1a3ee06819db2926d59eec4c77f055a554b06d314971cef7e626aaint,
        0x7800cb8410e7425b27cb4ae12d2f1ce2dd35fb7758ad99e0729f0c20d9250146int,
        0x3baaf822419d80b045261457307572541982289789565464e13df279b9839db5int,
    );
}

/// A multiple of the generator, step by step.
proof fn multiple_37()
    ensures
        leads(
            0xffffffff00000000ffffffffffffffffbce6faada7179e84f3b9cac2fc632550nat,
            0x6b17d1f2e12c4247f8bce6e563a440f277037d812deb33a0f4a13945d898c296int,
            0xb01cbd1c01e58065711814b583f061e9d431cca994cea1313449bf97c840ae0aint,
        ),
{
    let p = 0xffffffff00000001000000000000000000000000ffffffffffffffffffffffffint;
    multiple_36();
    let k = 0x3fffffffc00000003fffffffffffffffef39beab69c5e7a13cee72b0bf18c95nat;
    let k = lemma_leads_double(
        k,
        p,
        0x3b79f0190d30ec507df4c9433006dc3f98108e8c840eecac60f2ee72576300c2int,
        0x7800cb8410e7425b27cb4ae12d2f1ce2dd35fb7758ad99e0729f0c20d9250146int,
        0x13e1aace41718a701cfc777d12d8d44229a07d9deb4b28c637ee82e18b6b8866int,
        -0x16d09c838010ca659ac17457cd7487b19cfd70f24076e0b6face19811935aabfint,
        0xf005c5f391b8839d71d237050b742310632c4471bc90684abaddde575f701f04int,
        0x18b46484fc7bf827aef74572b604bb67ec9a7fbc7c21afe75a06ca5fc4597e4int,
        0x646f5eebabd61aa6f1f83cb7af67cc889746019ba17f47c4c9793666ec5ac01int,
        -0xe05883c8d9ada2433e79226cd6151cb8e8107faaec7c031f16186050f32346dint,
    );
    let k = lemma_leads_double(
        k,
        p,
        0xf005c5f391b8839d71d237050b742310632c4471bc90684abaddde575f701f04int,
        0x646f5eebabd61aa6f1f83cb7af67cc889746019ba17f47c4c9793666ec5ac01int,
        0x56436ab347a1162845d4c6b9cbe939adea2c4f90c169d40a97e58c7fbaec7a9bint,
        -0x29ee57e44017aea42bb5bd0437799035cefb0034a9db321ab5c74147ac3615509int,
        0xad7046b18a9ad4d5338ffdb2a83922a5d7e2583283f65fd27f1c88acb211236int,
        0x1d115d7197820b84c81946c51e473cf928f7446bba8c9292c527dad405813665int,
        0xf11ca539cfd85528e7b9c0f7b0574b11224ad4b45954da3481ef046e33b5fc6int,
        0x4d3a0fc6a890bd1ec98e7cf436c4fca9458b7252208fd6bf9c89a7c260221f0dint,
    );
    let k = lemma_leads_next(
        k,
        p,
        0xad7046b18a9ad4d5338ffdb2a83922a5d7e2583283f65fd27f1c88acb211236int,
        0xf11ca539cfd85528e7b9c0f7b0574b11224ad4b45954da3481ef046e33b5fc6int,
        0x6b17d1f2e12c4247f8bce6e563a440f277037d812deb33a0f4a13945d898c296int,
        0x4fe342e2fe1a7f9b8ee7eb4a7c0f9e162bce33576b315ececbb6406837bf51f5int,
        0x9b77ec69617f51069699bec6f62797e61fda164d9ad2f53842780fb17e45fa62int,
        0x3a74537457af7e62235da5431038d1a26de861ab5c57561ca13560ed8094ad6fint,
        0xb59926323f5188ed4aa844765881b0aa43de7963f0ce306a3b3b2d0bcc94e208int,
        0x5e6a70759ec5b8146bcfcf5e964351afbbfbb8f829daec97058981bf0a972950int,
        0x6713a14ad58a39aebd2f04422c3243f82dc3ca46a7b6ba0103e8e1b7303bb397int,
        -0x67b38862f17a0fdc1e6659e85768bf00cd81afffa47f9d6fb78d5681e5a64a3fint,
    );
    let k = lemma_leads_double(
        k,
        p,
        0xb59926323f5188ed4aa844765881b0aa43de7963f0ce306a3b3b2d0bcc94e208int,
        0x6713a14ad58a39aebd2f04422c3243f82dc3ca46a7b6ba0103e8e1b7303bb397int,
        0x510d851c47baf8984835e68c845e2bb545d52977fc75a523d9580f6237793779int,
        -0x1413073a58ab29be59cd2187f296aa48cce7934b22dd3aac2ed48f49343e24601int,
        0x55998956742784829dca12de6a988ea385db1548366a5131359ae2fd09295726int,
        0x19a98ef2c9238ee857f14c1e58ed71692e4704d7a847415fad8d473527ebe405int,
        0x6f76653e8f904d66c1c95c432ece5aa6f2187c07620a71bd27e88e8fc6457cd6int,
        0x1e64f287082fe91798a4609443301a1b56e644ac3b801d377a3062214b03fd9bint,
    );
    let k = lemma_leads_double(
        k,
        p,
        0x55998956742784829dca12de6a988ea385db1548366a5131359ae2fd09295726int,
        0x6f76653e8f904d66c1c95c432ece5aa6f2187c07620a71bd27e88e8fc6457cd6int,
        0xb9fded35e510eaf5658921bfe5042746076d1426453aa249dcb6bd3495e18ec8int,
        0x4c18490e66beba27efb785cfd753ed3b1a8afaf94f91dacd48ff7abbac481689int,
        0x7469a88fab79ae982fa880b0b940b96c6108eaec0473e2f530a861fa608f682int,
        0x8720fcb724870937ac33dd69c736570930c1afedc2ebd846b1aaa3e89d29288eint,
        0xb6bf06c0f458180962cb09c94552fecea039e0575b739e4213c698318a66f8f1int,
        0x38e79f1bfb0f892b9f753a899d395f61ba3d8509750411eeff991fcb85a1fda7int,
    );
    let k = lemma_leads_double(
        k,
        p,
        0x7469a88fab79ae982fa880b0b940b96c6108eaec0473e2f530a861fa608f682int,
        0xb6bf06c0f458180962cb09c94552fecea039e0575b739e4213c698318a66f8f1int,
        0x755d14d98ff4cbf80f733a8570b5b20dd2d2e8c0fecc7ebe2d31bba5e4b33192int,
        0xa6f0b0f74b3087ad0a8da97bb463061dd2d4f8a14592878b2ef3bee216b41925int,
        0x2afa386b3f2bdcdb83f4d83f8fa3874d7b74dcb454bd644fdd6bf3d1f2da8db6int,
        0x35ce36e73b294897938991cf9d7bd9b8d3d5d1918c5e4051cfe42022d3274376int,
        0x72184be1caa8563462b536f10852d665ae8a64fdf1eb8d4c946ad589796f729cint,
        -0x105e125134840dabb576b2610d69195b4e43b31fd1fb054094ab1026055464cbint,
    );
    let k = lemma_leads_double(
        k,
        p,
        0x2afa386b3f2bdcdb83f4d83f8fa3874d7b74dcb454bd644fdd6bf3d1f2da8db6int,
        0x72184be1caa8563462b536f10852d665ae8a64fdf1eb8d4c946ad589796f729cint,
        0x83362c631c75685e3615425a3bf2d24ad3517a0496f1d94b79cc3fdabf3fe22aint,
        0x5f4ffa39de556b7d35a3a2e07c845687b919d30429e2dd18c16fa9f57188ecf9int,
        0x6b17d1f2e12c4247f8bce6e563a440f277037d812deb33a0f4a13945d898c296int,
        0x43407ce473e2df640593f58238dbfebcc1c1dfadd21facfccf8ae1f5f9d3af1eint,
        0xb01cbd1c01e58065711814b583f061e9d431cca994cea1313449bf97c840ae0aint,
        -0x20dcb6ecd4556aa9ef2fb2c4e5310c084ee6566051a4c05e5bd31b06ff4d729aint,
    );
}

/// The multiple by `n - 1` is the reflected generator.
pub proof fn lemma_last_multiple()
    ensures
        leads((group_n() - 1) as nat, generator().0, field_p() - generator().1),
{
    multiple_37();
}

} // verus!
