//! The field modulus of the curve is prime. Powers are built by squaring and
//! multiplying; every step gives its quotient and its remainder.
use crate::primes::{
    leaves, lemma_leaves_first, lemma_leaves_next, lemma_leaves_square, lemma_of_prime_order,
    lemma_prime_by_one, lemma_prime_by_two, prime,
};
use vstd::prelude::*;

verus! {

/// A power of an element, step by step.
proof fn power_150_bits_to_34282281433_0()
    ensures
        leaves(0x1f4cfb5c1753681057167b61d5b00d91760efcint, 0x1fednat, 0x301e33173824428723f02ab423ef2e45a097aint, 0x22b559b5c816ae00f2378e18df38c5410ed597int),
{
    let (b, m) = (0x1f4cfb5c1753681057167b61d5b00d91760efcint, 0x22b559b5c816ae00f2378e18df38c5410ed597int);
    lemma_leaves_first(b, m);
    let e = 1nat;
    let e = lemma_leaves_square(b, e, 0x1f4cfb5c1753681057167b61d5b00d91760efcint, m, 0x1c3a434ff7f8aef5a99d63e0c3f83ea013ec91int, 0x19fcb060c6bb53d40a7dda03fddd2588ad5989int);
    let e = lemma_leaves_next(b, e, 0x19fcb060c6bb53d40a7dda03fddd2588ad5989int, m, 0x176f863b3644379c4d69a7f1a87be0cb629db1int, 0x1ac9282e0d49b469cd34d0ea1a548a4ea25875int);
    let e = lemma_leaves_square(b, e, 0x1ac9282e0d49b469cd34d0ea1a548a4ea25875int, m, 0x14abec9c1de4fc0ac47870feb58ef8f9264634int, 0x1faa090fe0e4b8033fc978cdf740e885cff8cdint);
    let e = lemma_leaves_next(b, e, 0x1faa090fe0e4b8033fc978cdf740e885cff8cdint, m, 0x1c8e2e2fdb0106001fc542ac36f657dd4bb831int, 0xf308ccbed050854dfcfed5c7775d5d839b5e5int);
    let e = lemma_leaves_square(b, e, 0xf308ccbed050854dfcfed5c7775d5d839b5e5int, m, 0x6a5c5116cd0c449b3ede95a8fc41049825a85int, 0x172b813e2c9d7d13845e9cae5f5fcc67bd9166int);
    let e = lemma_leaves_next(b, e, 0x172b813e2c9d7d13845e9cae5f5fcc67bd9166int, m, 0x14e5257f0fdd69afd3f8b853c1d465c0f99ff9int, 0xd2e3190885ef085e6f48016f3ba55c99d2b89int);
    let e = lemma_leaves_square(b, e, 0xd2e3190885ef085e6f48016f3ba55c99d2b89int, m, 0x50157d5e02c0e65cb7ec2a5c1b6a186919771int, 0x227ae0b648c05adcca3b7339af78391361f6aaint);
    let e = lemma_leaves_next(b, e, 0x227ae0b648c05adcca3b7339af78391361f6aaint, m, 0x1f184006ae112fe63884f59afe0b0f4e0a290dint, 0x15858398c909bcd47d672490c4bfcd646c13adint);
    let e = lemma_leaves_square(b, e, 0x15858398c909bcd47d672490c4bfcd646c13adint, m, 0xd5844cd400d679d21177c2245b87fc0b98fe1int, 0x22ab8dcc7075802ae92b1feeee8f89b2031032int);
    let e = lemma_leaves_next(b, e, 0x22ab8dcc7075802ae92b1feeee8f89b2031032int, m, 0x1f4425ad25bdbedea4cfd36f832b947b042b0cint, 0x1747721a8c1d0e6858d39ec4cf0713c1044d24int);
    let e = lemma_leaves_square(b, e, 0x1747721a8c1d0e6858d39ec4cf0713c1044d24int, m, 0xf9d07222c5c332ad14b600256992f65530dd2int, 0xcc67f00d9c681b16bd79f9ee2e9d0d665cc32int);
    let e = lemma_leaves_next(b, e, 0xcc67f00d9c681b16bd79f9ee2e9d0d665cc32int, m, 0xb8565a2acfa0d6485fbebe226600065b5deedint, 0x13c12a6954530b9d0d67d3747ab8a15fb40e6dint);
    let e = lemma_leaves_square(b, e, 0x13c12a6954530b9d0d67d3747ab8a15fb40e6dint, m, 0xb3e5326ea0ce938c25c2017e781c45c3f3963int, 0x9ca1bd1f5b42aafd9ed961dc120a9e5a3e204int);
    let e = lemma_leaves_next(b, e, 0x9ca1bd1f5b42aafd9ed961dc120a9e5a3e204int, m, 0x8d40ebbe9f39cf9f6baabfd31fbad1510237bint, 0x1310bc37f68ee45911812e374a6d666fc26f63int);
    let e = lemma_leaves_square(b, e, 0x1310bc37f68ee45911812e374a6d666fc26f63int, m, 0xa78fe9d05561d96ecf2745bd2d46dafa30dfeint, 0x6e3b5c09c829c6dd2e570e2535b6556cd6977int);
    let e = lemma_leaves_square(b, e, 0x6e3b5c09c829c6dd2e570e2535b6556cd6977int, m, 0x15e170e20d6fe2b50016fc4eb5db567cc6adaint, 0x3a21204bfb86565f67e9ddd01c62587a26cbbint);
    let e = lemma_leaves_next(b, e, 0x3a21204bfb86565f67e9ddd01c62587a26cbbint, m, 0x346c16cd3832399d48ed6ecad9d7ca931fd63int, 0x141c039bed1eccd80d438aa7f17fc00c4d6dafint);
    let e = lemma_leaves_square(b, e, 0x141c039bed1eccd80d438aa7f17fc00c4d6dafint, m, 0xba6aaf8e0d3949fde25dccf05db3fda41830aint, 0x13ae0f79227381be6280938e7a76649f0ce0bbint);
    let e = lemma_leaves_next(b, e, 0x13ae0f79227381be6280938e7a76649f0ce0bbint, m, 0x11bf6bc13ed7e44993d2c7a4e469f48c7f7685int, 0x11674ab89cb4283df7fd88606f4fe99917e0a1int);
    let e = lemma_leaves_square(b, e, 0x11674ab89cb4283df7fd88606f4fe99917e0a1int, m, 0x8b9f8e13cefd7ed02c0625c2a7019436b11ccint, 0x1c910a1ba6204f9c582f1e2b7b7a71f4e9e9edint);
    let e = lemma_leaves_square(b, e, 0x1c910a1ba6204f9c582f1e2b7b7a71f4e9e9edint, m, 0x1782f51de767574847b2d62885b5b567cf8b91int, 0x21e0848c0d15b6db56c8f8e0a0872311b24de2int);
    let e = lemma_leaves_next(b, e, 0x21e0848c0d15b6db56c8f8e0a0872311b24de2int, m, 0x1e8d0b946bdfc11881c256573fab7c472e96b2int, 0x301e33173824428723f02ab423ef2e45a097aint);
}

/// A power of an element, step by step.
proof fn power_150_bits_to_34282281433_1()
    ensures
        leaves(0x1f4cfb5c1753681057167b61d5b00d91760efcint, 0x1fed886nat, 0x1798433c515255b685797d178cd77bff884c68int, 0x22b559b5c816ae00f2378e18df38c5410ed597int),
{
    let (b, m) = (0x1f4cfb5c1753681057167b61d5b00d91760efcint, 0x22b559b5c816ae00f2378e18df38c5410ed597int);
    power_150_bits_to_34282281433_0();
    let e = 0x1fednat;
    let e = lemma_leaves_square(b, e, 0x301e33173824428723f02ab423ef2e45a097aint, m, 0x42b553e1eccc8d62f9d6f17b1707f36ffb56int, 0x48fbeaea2d29d3a4533970c5557d8a242006aint);
    let e = lemma_leaves_next(b, e, 0x48fbeaea2d29d3a4533970c5557d8a242006aint, m, 0x41d1853910fb206b57e8a36c78c34a8dd6895int, 0x1f2e33fdfb330c65e8329d4c3d5a4730178b75int);
    let e = lemma_leaves_square(b, e, 0x1f2e33fdfb330c65e8329d4c3d5a4730178b75int, m, 0x1c02db128b2fdf1c8deae81cfc214ab919726cint, 0x1a34cc195e03f136fb3d14b8b763b932dfe9c5int);
    let e = lemma_leaves_square(b, e, 0x1a34cc195e03f136fb3d14b8b763b932dfe9c5int, m, 0x13c96978ea1f84ae4211f1628a0ea8330b8913int, 0x1fe072ec88f61428c62e99aafd842707c98864int);
    let e = lemma_leaves_square(b, e, 0x1fe072ec88f61428c62e99aafd842707c98864int, m, 0x1d46b00d4d033cc31ff9fd380044ccdc8c4095int, 0xc71394a6e00efcd7829caf17f5383c816562dint);
    let e = lemma_leaves_square(b, e, 0xc71394a6e00efcd7829caf17f5383c816562dint, m, 0x475d71981afa8c07b3fe92b169155efea5b1aint, 0x221ddee5be8b63c98b33c57500a3642649e593int);
    let e = lemma_leaves_next(b, e, 0x221ddee5be8b63c98b33c57500a3642649e593int, m, 0x1ec45fdf40be67a4e91de852d0b2d51de93b20int, 0x19b4272b96903959ecb55bc8e06240c18a86d4int);
    let e = lemma_leaves_square(b, e, 0x19b4272b96903959ecb55bc8e06240c18a86d4int, m, 0x130902e8c2c248e96412930cbf049228551de2int, 0x8e975eba1c98248542fd1ea335654ab24f542int);
    let e = lemma_leaves_square(b, e, 0x8e975eba1c98248542fd1ea335654ab24f542int, m, 0x249cd80195f98cca6a8b69cf24440451f2d96int, 0x68304366ea8e00935aac0fc5e5e2ac701b38aint);
    let e = lemma_leaves_square(b, e, 0x68304366ea8e00935aac0fc5e5e2ac701b38aint, m, 0x138c17498050c8b0a327bd4727bfa6dd069c7int, 0x1a9288ceb51c20f02638e2dd538df1f32b4f03int);
    let e = lemma_leaves_square(b, e, 0x1a9288ceb51c20f02638e2dd538df1f32b4f03int, m, 0x1457f3971e8cbf8a91948178e27ad7ce33ba0cint, 0x17466b9124aacd70ae447a6d9818d0726e20f5int);
    let e = lemma_leaves_square(b, e, 0x17466b9124aacd70ae447a6d9818d0726e20f5int, m, 0xf9ba6fe9ce1262a72a7748e541647ab506153int, 0x22953b821f27263367b14e433a291037dcb384int);
    let e = lemma_leaves_next(b, e, 0x22953b821f27263367b14e433a291037dcb384int, m, 0x1f30046b0ede1b9da6e3fd3bfd2c5017c3beb7int, 0xf2936e0ca0b1b4fd229f93bb05c29cac42cffint);
    let e = lemma_leaves_square(b, e, 0xf2936e0ca0b1b4fd229f93bb05c29cac42cffint, m, 0x69f5aedbb803dc5debea49f15640771188076int, 0xf2aef6476bb1f8efedc2a3b19ac54596b267int);
    let e = lemma_leaves_next(b, e, 0xf2aef6476bb1f8efedc2a3b19ac54596b267int, m, 0xdadb4d8ff73f692410b354d8f0275b790389int, 0x1c8a19c216e0bc360a2c291140a078b1c32c95int);
    let e = lemma_leaves_square(b, e, 0x1c8a19c216e0bc360a2c291140a078b1c32c95int, m, 0x17778a794bf176e66fc33811ff0f6502143457int, 0x1798433c515255b685797d178cd77bff884c68int);
}

/// A power of an element, step by step.
proof fn power_150_bits_to_34282281433_2()
    ensures
        leaves(0x1f4cfb5c1753681057167b61d5b00d91760efcint, 0x7fb6219d9nat, 0x1int, 0x22b559b5c816ae00f2378e18df38c5410ed597int),
{
    let (b, m) = (0x1f4cfb5c1753681057167b61d5b00d91760efcint, 0x22b559b5c816ae00f2378e18df38c5410ed597int);
    power_150_bits_to_34282281433_1();
    let e = 0x1fed886nat;
    let e = lemma_leaves_square(b, e, 0x1798433c515255b685797d178cd77bff884c68int, m, 0x100a2be7c411eabe2e6884873206c99a54db4cint, 0x16f74aa9cb70c73d4fb8fe5649d09788a2546cint);
    let e = lemma_leaves_square(b, e, 0x16f74aa9cb70c73d4fb8fe5649d09788a2546cint, m, 0xf323b45296024d5d1f059769300f079221f90int, 0xe748352386542b684da86ee3441b793439fa0int);
    let e = lemma_leaves_next(b, e, 0xe748352386542b684da86ee3441b793439fa0int, m, 0xd0931d09bbabdbbd8844799703a39dd803a6cint, 0x15ccf9ad03e7a7631c8076bdc84615e7e58fccint);
    let e = lemma_leaves_square(b, e, 0x15ccf9ad03e7a7631c8076bdc84615e7e58fccint, m, 0xdb1770c8afcf557267fd790f901da6a5aef00int, 0x1d91f0450ee969c327fcf3217d99da453f9190int);
    let e = lemma_leaves_next(b, e, 0x1d91f0450ee969c327fcf3217d99da453f9190int, m, 0x1aaab7c544a3812b86a113896411fdb672c7ceint, 0x6f2a107f7619f4b74741db4530db8f3b2e93eint);
    let e = lemma_leaves_square(b, e, 0x6f2a107f7619f4b74741db4530db8f3b2e93eint, m, 0x16409b1ae3666ecd21e03d6c2bbc2316e72f8int, 0x7a671ec2aab7a76b16f59f3a2ee35935bc2bcint);
    let e = lemma_leaves_next(b, e, 0x7a671ec2aab7a76b16f59f3a2ee35935bc2bcint, m, 0x6e629ef6d339523b9509839a3c7c4d0a7f0ddint, 0x22afbf09232384d67fd766b5891dd53a1505b5int);
    let e = lemma_leaves_square(b, e, 0x22afbf09232384d67fd766b5891dd53a1505b5int, m, 0x22aa25442490bcdb9dac536db250d8b7af2198int, 0x1807d8649da2028effcbd5d4b86bc576424951int);
    let e = lemma_leaves_square(b, e, 0x1807d8649da2028effcbd5d4b86bc576424951int, m, 0x10a347d3365c4aeaa0dae2910631a43020ed97int, 0x33435b51822124b9c6dd5b95efa3370668490int);
    let e = lemma_leaves_next(b, e, 0x33435b51822124b9c6dd5b95efa3370668490int, m, 0x2e3ae5fc9e503ffea997dded941cb1630f23aint, 0x4ee8ea21aab5a3d2c23b794e6335e20f53b8aint);
    let e = lemma_leaves_square(b, e, 0x4ee8ea21aab5a3d2c23b794e6335e20f53b8aint, m, 0xb366f074e8d3683816d581824caf1f49785fint, 0xce2ff380d6334ad4a59a91b3938223a4ddb5bint);
    let e = lemma_leaves_next(b, e, 0xce2ff380d6334ad4a59a91b3938223a4ddb5bint, m, 0xb9f198130b15f8bdd4a7b21896f988dde4a94int, 0x109c736c6b6151cd5f21070f1815a10351c648int);
    let e = lemma_leaves_square(b, e, 0x109c736c6b6151cd5f21070f1815a10351c648int, m, 0x7f32f8c332146631633e644f975cf9dd01238int, 0x1e346b81c4a2773f65eb3eba75447757301d38int);
    let e = lemma_leaves_square(b, e, 0x1e346b81c4a2773f65eb3eba75447757301d38int, m, 0x1a4916e958b65c98650b61019fe2b110f1f977int, 0xc7dc2d47cd4a689ad848009ca3f46d989940fint);
    let e = lemma_leaves_square(b, e, 0xc7dc2d47cd4a689ad848009ca3f46d989940fint, m, 0x47ed8bdf5ade8877e45ffc67adc10551856cbint, 0x2caf9558e1a7d693e377a3105752080034024int);
    let e = lemma_leaves_next(b, e, 0x2caf9558e1a7d693e377a3105752080034024int, m, 0x284c7058288accf3ed2e5daafcbf041f193e9int, 0x1int);
}

/// A power of an element, step by step.
proof fn power_150_bits_to_44_bits_0()
    ensures
        leaves(0x2cbe55ea53ac8f31a83a9d88b34f81060f414int, 0x1489nat, 0x2224c481259278042b078d560e61ed4c4aecd8int, 0x22b559b5c816ae00f2378e18df38c5410ed597int),
{
    let (b, m) = (0x2cbe55ea53ac8f31a83a9d88b34f81060f414int, 0x22b559b5c816ae00f2378e18df38c5410ed597int);
    lemma_leaves_first(b, m);
    let e = 1nat;
    let e = lemma_leaves_square(b, e, 0x2cbe55ea53ac8f31a83a9d88b34f81060f414int, m, 0x39ae14bca33db6ec5f6cce5ff51df229649dint, 0xbdf7d7d15fe00b370d4a2957a4533d2ff27f5int);
    let e = lemma_leaves_square(b, e, 0xbdf7d7d15fe00b370d4a2957a4533d2ff27f5int, m, 0x40fbec691545dc07c27f2a528d8dd21ed8c7bint, 0x105897539453e3a0a02b442fb5838301985cecint);
    let e = lemma_leaves_next(b, e, 0x105897539453e3a0a02b442fb5838301985cecint, m, 0x15127703f3e9cb1f06c0bc3c05ad5692a1e9dint, 0x1dd615950cfcc324603bfb1f17ba0d541182d5int);
    let e = lemma_leaves_square(b, e, 0x1dd615950cfcc324603bfb1f17ba0d541182d5int, m, 0x19a5e6ac40f84a6926c15387e04b4cd7b4cdc5int, 0x155cd145ec01c1a8a078478919ce287a86bd06int);
    let e = lemma_leaves_square(b, e, 0x155cd145ec01c1a8a078478919ce287a86bd06int, m, 0xd25fc661683721f78c599b65419e68ef73717int, 0x1b2e99343242126ad67009fcbd4dcd46f03a93int);
    let e = lemma_leaves_square(b, e, 0x1b2e99343242126ad67009fcbd4dcd46f03a93int, m, 0x1549a79f897732a55d2588be506c6fd32bd871int, 0xf5390431805a800e3864c5fc688ebb3e640c2int);
    let e = lemma_leaves_next(b, e, 0xf5390431805a800e3864c5fc688ebb3e640c2int, m, 0x13c1f7abae444b73d96afcab9cfcd9db31887int, 0x17b0bc4c64f1f36bcd09aa61a030cf46082c87int);
    let e = lemma_leaves_square(b, e, 0x17b0bc4c64f1f36bcd09aa61a030cf46082c87int, m, 0x102b83247f1d0d4202ae5decaa8c39e00a8906int, 0x1bdec084d5e7d8407d7e32dd328e66b5a1dea7int);
    let e = lemma_leaves_square(b, e, 0x1bdec084d5e7d8407d7e32dd328e66b5a1dea7int, m, 0x16610ece2f091558ea3d42bdd40de70e572758int, 0x234228d01d3b0bf9d5fcbabd819947dbfa409int);
    let e = lemma_leaves_square(b, e, 0x234228d01d3b0bf9d5fcbabd819947dbfa409int, m, 0x23d1332a71bbebe24654dbd94978fa308668int, 0x20c93fd27ade4fbc2bb79ab9cdf4b94465b8f9int);
    let e = lemma_leaves_square(b, e, 0x20c93fd27ade4fbc2bb79ab9cdf4b94465b8f9int, m, 0x1ef867055f9bb164630955b3d5f3a99477751eint, 0x17ad1e023933e33f1b47e5471b3da8c594d77fint);
    let e = lemma_leaves_next(b, e, 0x17ad1e023933e33f1b47e5471b3da8c594d77fint, m, 0x1e858b194a9be1890b5435875d423dae8d804int, 0x309f5687e3473ff46a57522fc78df5d5b2390int);
    let e = lemma_leaves_square(b, e, 0x309f5687e3473ff46a57522fc78df5d5b2390int, m, 0x441d443a90b350a5ec0bd06aa29f7918a8e1int, 0x1b75141519943b320ed15a813a1f79df3df49int);
    let e = lemma_leaves_square(b, e, 0x1b75141519943b320ed15a813a1f79df3df49int, m, 0x15b89b73369fc57adfd1f4359af42e02404aint, 0x1e7bbe9ab1748a3cdc8a1cece7695be078c52bint);
    let e = lemma_leaves_square(b, e, 0x1e7bbe9ab1748a3cdc8a1cece7695be078c52bint, m, 0x1ac5cd357a2c2031f138a3c10ec163b0845d40int, 0xfa800f6ff5bb61e8d85ff7923fbc11701f479int);
    let e = lemma_leaves_next(b, e, 0xfa800f6ff5bb61e8d85ff7923fbc11701f479int, m, 0x142ed2529542eb197a0cfd0dfcc39e1e4efc4int, 0x2224c481259278042b078d560e61ed4c4aecd8int);
}

/// A power of an element, step by step.
proof fn power_150_bits_to_44_bits_1()
    ensures
        leaves(0x2cbe55ea53ac8f31a83a9d88b34f81060f414int, 0x1489c2fnat, 0xae4724ae1058efb6a75ac9354e6ecf8391b44int, 0x22b559b5c816ae00f2378e18df38c5410ed597int),
{
    let (b, m) = (0x2cbe55ea53ac8f31a83a9d88b34f81060f414int, 0x22b559b5c816ae00f2378e18df38c5410ed597int);
    power_150_bits_to_44_bits_0();
    let e = 0x1489nat;
    let e = lemma_leaves_square(b, e, 0x2224c481259278042b078d560e61ed4c4aecd8int, m, 0x21968994585eace3a8ce3fbd1c3530bb1324d2int, 0xcb30240f93842ac0103f3cc82196c958462int);
    let e = lemma_leaves_next(b, e, 0xcb30240f93842ac0103f3cc82196c958462int, m, 0x105ef5b151c439e48c82d28b2278704a709int, 0x1e035317aafad685ce3dffee9b9183d464bc59int);
    let e = lemma_leaves_square(b, e, 0x1e035317aafad685ce3dffee9b9183d464bc59int, m, 0x19f3e930f2536681e0ac088d0f56ef6e097aa5int, 0x4a6a9e07d23932cb80d112b2e3143b372369eint);
    let e = lemma_leaves_next(b, e, 0x4a6a9e07d23932cb80d112b2e3143b372369eint, m, 0x5feea50a58b9c74010fcdbdd5881b8244c2fint, 0xbaa074dce94aa9dd35ebe121b7b6851dcd19fint);
    let e = lemma_leaves_square(b, e, 0xbaa074dce94aa9dd35ebe121b7b6851dcd19fint, m, 0x3eb7d9d8537b44d2c7c100bd77ecdba071060int, 0xda66dc7510d849c13c300f7d30dc3b2e27821int);
    let e = lemma_leaves_square(b, e, 0xda66dc7510d849c13c300f7d30dc3b2e27821int, m, 0x55e49cb82f2447e4fb660746550064933f2f3int, 0x796b9d3698f0ba45126a2ae8a5688d39077ecint);
    let e = lemma_leaves_square(b, e, 0x796b9d3698f0ba45126a2ae8a5688d39077ecint, m, 0x1a8c3c81fdc31931a53455b62b14976a0460dint, 0x41284818078f7cc422581af81d15fb5251ee5int);
    let e = lemma_leaves_square(b, e, 0x41284818078f7cc422581af81d15fb5251ee5int, m, 0x7a518ac76a922b467b31eaf59b018b54ec8bint, 0x10ef4644b561fc4bab9f59167c0685b16b4bdcint);
    let e = lemma_leaves_square(b, e, 0x10ef4644b561fc4bab9f59167c0685b16b4bdcint, m, 0x8433c2dc39ac34c6ce6e2ae2f84976f511b3aint, 0x13f4019f9741bc475e34ed9f57278a5cb853daint);
    let e = lemma_leaves_next(b, e, 0x13f4019f9741bc475e34ed9f57278a5cb853daint, m, 0x19b8dd0852db620c9b43217cbc1fdb7832353int, 0x19b54ac96e54909281a57eab239261a3ca7013int);
    let e = lemma_leaves_square(b, e, 0x19b54ac96e54909281a57eab239261a3ca7013int, m, 0x130ab2ddee98687683a0e0801cbe80d8a9e297int, 0x1207937dfaf4c799cf005b6be210e8600e5758int);
    let e = lemma_leaves_square(b, e, 0x1207937dfaf4c799cf005b6be210e8600e5758int, m, 0x95d9a602d13fec17161fd0bcdeb9709c09efeint, 0x78901f45516b5305fa2ba55d9163e76a1d06eint);
    let e = lemma_leaves_next(b, e, 0x78901f45516b5305fa2ba55d9163e76a1d06eint, m, 0x9b6bbd752a3c152b3ca4070e7d57b3b471fcint, 0x214afe239271f9b6f75e6f9f40bf3d2e7f38f4int);
    let e = lemma_leaves_square(b, e, 0x214afe239271f9b6f75e6f9f40bf3d2e7f38f4int, m, 0x1fef699a65a9e4eee73b18453e13ecc9b676b6int, 0xea38577f2c22c56abb73549c7e94cbf6a3536int);
    let e = lemma_leaves_next(b, e, 0xea38577f2c22c56abb73549c7e94cbf6a3536int, m, 0x12df06e60dc1f39ab169dc5fdc360f0f931acint, 0xfc7d648e2ed696282f6bf7c8f1ca0a68b37c4int);
    let e = lemma_leaves_square(b, e, 0xfc7d648e2ed696282f6bf7c8f1ca0a68b37c4int, m, 0x72cc3577a68872af41639db2d41e0d7201486int, 0x20201b4731c38a6b932f4d9a357a5610aa3506int);
    let e = lemma_leaves_next(b, e, 0x20201b4731c38a6b932f4d9a357a5610aa3506int, m, 0x2969e8b3293ac5fc8a8d6a26d30ee84778ddfint, 0x1b722c097183f16e8abfd15eed307dcd54a2efint);
    let e = lemma_leaves_square(b, e, 0x1b722c097183f16e8abfd15eed307dcd54a2efint, m, 0x15b4027c2d6dbfb04bb0ec9c538ee254b78b43int, 0x4b8cbd2e50b60c5b2542426d6bf62cabf779cint);
    let e = lemma_leaves_next(b, e, 0x4b8cbd2e50b60c5b2542426d6bf62cabf779cint, m, 0x6164a5e7ecdd45f3c4738bb629276fc68ff4int, 0xae4724ae1058efb6a75ac9354e6ecf8391b44int);
}

/// A power of an element, step by step.
proof fn power_150_bits_to_44_bits_2()
    ensures
        leaves(0x2cbe55ea53ac8f31a83a9d88b34f81060f414int, 0x1489c2f3b9nat, 0x181f49b094ee3087a71aaecdfdc57ae05727e9int, 0x22b559b5c816ae00f2378e18df38c5410ed597int),
{
    let (b, m) = (0x2cbe55ea53ac8f31a83a9d88b34f81060f414int, 0x22b559b5c816ae00f2378e18df38c5410ed597int);
    power_150_bits_to_44_bits_1();
    let e = 0x1489c2fnat;
    let e = lemma_leaves_square(b, e, 0xae4724ae1058efb6a75ac9354e6ecf8391b44int, m, 0x36b15aa99f55549751bf517d8ac05025600afint, 0x1434a7c49121bb2ad5a8319105bf7f7f5167d7int);
    let e = lemma_leaves_square(b, e, 0x1434a7c49121bb2ad5a8319105bf7f7f5167d7int, m, 0xbc34a22e791f98751a3ed04e289ce287ce90eint, 0xfe70d3d37ec63387d8a6c994d922b15d2994fint);
    let e = lemma_leaves_square(b, e, 0xfe70d3d37ec63387d8a6c994d922b15d2994fint, m, 0x74941ca9ed882947158ebe1e3c2fc2ab264f1int, 0x818d63125db874d71c4c35e7efdd58407773aint);
    let e = lemma_leaves_next(b, e, 0x818d63125db874d71c4c35e7efdd58407773aint, m, 0xa7025c39386cd081bea74406f27a0a569074int, 0x1b62bf39519c8bb16408be4bb6f3b24a60e01cint);
    let e = lemma_leaves_square(b, e, 0x1b62bf39519c8bb16408be4bb6f3b24a60e01cint, m, 0x159ba438699f72b5c7b82f271c49565024b348int, 0x90a98d5a13626a0bf36ce56a578a224705b98int);
    let e = lemma_leaves_next(b, e, 0x90a98d5a13626a0bf36ce56a578a224705b98int, m, 0xba7ce988933ce9055cf12acd4f4f7d3c5077int, 0x4c70e33b9167225ed19858e0f3a1e1e0b8eafint);
    let e = lemma_leaves_square(b, e, 0x4c70e33b9167225ed19858e0f3a1e1e0b8eafint, m, 0xa85a0f464310dd07b5fedb2949ee5c5376b4int, 0x7ad2705f36e4f4934c6a2620f8e587db9d375int);
    let e = lemma_leaves_next(b, e, 0x7ad2705f36e4f4934c6a2620f8e587db9d375int, m, 0x9e554364741f14eb76cd9954ac237bc71eb8int, 0x1a837bca05d8b42c1f1dbc57a990ca76ddd29cint);
    let e = lemma_leaves_square(b, e, 0x1a837bca05d8b42c1f1dbc57a990ca76ddd29cint, m, 0x1440ee74087ac3c69b370b813420384114bcafint, 0xbfc85a243080e43c773547154ff82b9d168d7int);
    let e = lemma_leaves_square(b, e, 0xbfc85a243080e43c773547154ff82b9d168d7int, m, 0x423b3d1778e6868fb75986d863e530b8adfbbint, 0x225a3dc4aeef9f62fbab4904c4e4b05b2d644int);
    let e = lemma_leaves_next(b, e, 0x225a3dc4aeef9f62fbab4904c4e4b05b2d644int, m, 0x2c48e26ad1ee93179239aeb9a56abbb3f7cbint, 0x2499557d09c9780b9de6a3f9be484f3447d93int);
    let e = lemma_leaves_square(b, e, 0x2499557d09c9780b9de6a3f9be484f3447d93int, m, 0x2697ae10feaac0e0af0b4612232d09416545int, 0x139030bc52d2aee11a258e4b2015a91815bdb6int);
    let e = lemma_leaves_next(b, e, 0x139030bc52d2aee11a258e4b2015a91815bdb6int, m, 0x1938302474326b8c7b8813c48abd027c36656int, 0x16730a1518ea05f381ce74a3851dc6a7a95f7eint);
    let e = lemma_leaves_square(b, e, 0x16730a1518ea05f381ce74a3851dc6a7a95f7eint, m, 0xe852e81742510979e051f916e8eeb573bac2aint, 0x16ee3b20c29f9141bf35c660cf8dc6d3d433eint);
    let e = lemma_leaves_next(b, e, 0x16ee3b20c29f9141bf35c660cf8dc6d3d433eint, m, 0x1d8f77893158062c9e9f2ff578c1c058a5bcint, 0x877515942d530c57caf76cc6ef0a801a92af4int);
    let e = lemma_leaves_square(b, e, 0x877515942d530c57caf76cc6ef0a801a92af4int, m, 0x210a724b8dc1239a676f272ee2bd1350050cbint, 0x507d01fad8a3ead35eb536bae2a2128da69d3int);
    let e = lemma_leaves_square(b, e, 0x507d01fad8a3ead35eb536bae2a2128da69d3int, m, 0xbaa6bc1f9d085547274138f86e0e43c9b48bint, 0x1ef834328a94264aad9ef2ed7d74295d4f9eecint);
    let e = lemma_leaves_square(b, e, 0x1ef834328a94264aad9ef2ed7d74295d4f9eecint, m, 0x1ba229b8a3b64fed35d7cfd4b9e970a972fb2cint, 0x8b4c4bd341473775b558b582dec766a1a669cint);
    let e = lemma_leaves_next(b, e, 0x8b4c4bd341473775b558b582dec766a1a669cint, m, 0xb3929cc48773e08c5c25d681835ec87db4d1int, 0x181f49b094ee3087a71aaecdfdc57ae05727e9int);
}

/// A power of an element, step by step.
proof fn power_150_bits_to_44_bits_3()
    ensures
        leaves(0x2cbe55ea53ac8f31a83a9d88b34f81060f414int, 0xa44e179dccfnat, 0x1int, 0x22b559b5c816ae00f2378e18df38c5410ed597int),
{
    let (b, m) = (0x2cbe55ea53ac8f31a83a9d88b34f81060f414int, 0x22b559b5c816ae00f2378e18df38c5410ed597int);
    power_150_bits_to_44_bits_2();
    let e = 0x1489c2f3b9nat;
    let e = lemma_leaves_square(b, e, 0x181f49b094ee3087a71aaecdfdc57ae05727e9int, m, 0x10c3cdc0aa39927784c096c3b1bdbbe163dee6int, 0xedcd603bf51cee2d3352c5d75853145a4fa67int);
    let e = lemma_leaves_next(b, e, 0xedcd603bf51cee2d3352c5d75853145a4fa67int, m, 0x1328e9a881418d7ff72b985e272b7048f8c3eint, 0x209018ee8d363db9bf31ea2c3d2c9c7c6e6d7aint);
    let e = lemma_leaves_square(b, e, 0x209018ee8d363db9bf31ea2c3d2c9c7c6e6d7aint, m, 0x1e8ccbf74ab705eeed66b5e7050f715f226dbdint, 0x2766db6b6ffc0649327d7cc835a29b3b622a9int);
    let e = lemma_leaves_square(b, e, 0x2766db6b6ffc0649327d7cc835a29b3b622a9int, m, 0x2cbad5e4b254dbb60a4548166d7ed888fef9int, 0x1d7696b4c0bdb59e418574837ab65bc36bc1b2int);
    let e = lemma_leaves_square(b, e, 0x1d7696b4c0bdb59e418574837ab65bc36bc1b2int, m, 0x1902bf0add9755421a86db9c74cc1cf8938561int, 0x972b96aee613f0dd58f99b33cba7f600e7e8dint);
    let e = lemma_leaves_next(b, e, 0x972b96aee613f0dd58f99b33cba7f600e7e8dint, m, 0xc2e0a49d2e2a0e1c5bdcb48c8ae1ce872651int, 0x12b8cca5495929b087785ca36486f6a899483dint);
    let e = lemma_leaves_square(b, e, 0x12b8cca5495929b087785ca36486f6a899483dint, m, 0xa194220c830edcd95936a99c5fdccfd629182int, 0x20340bad56eaadb40116de307badb70dfb60dbint);
    let e = lemma_leaves_next(b, e, 0x20340bad56eaadb40116de307badb70dfb60dbint, m, 0x29839ce9b6ba73da3579707698561b271b6e7int, 0x11f0e3d9d2fcf429f5eb53c94070962c3137dbint);
    let e = lemma_leaves_square(b, e, 0x11f0e3d9d2fcf429f5eb53c94070962c3137dbint, m, 0x946178a22844639e64fc82be71d71698a3f95int, 0xa147323af4660722415fa4cc5e93b1f6d5b76int);
    let e = lemma_leaves_next(b, e, 0xa147323af4660722415fa4cc5e93b1f6d5b76int, m, 0xcfe86523b4ced7d81da8c1485c3c6e91aac5int, 0x13ee2c8b05b62210166d07e49f8a0b952ffa05int);
    let e = lemma_leaves_square(b, e, 0x13ee2c8b05b62210166d07e49f8a0b952ffa05int, m, 0xb71c9563a3ea43f3d861b865fdf0cf422c0b7int, 0x1667588b4330093f0ce37258afe908a829d528int);
    let e = lemma_leaves_next(b, e, 0x1667588b4330093f0ce37258afe908a829d528int, m, 0x1ce19543ccc57228c0dfffb8eba78153c9bb9int, 0x1int);
}

/// A prime of 150 bits.
pub proof fn lemma_prime_150_bits()
    ensures
        prime(0x22b559b5c816ae00f2378e18df38c5410ed597int),
{
    crate::primes::small::lemma_prime_34282281433();
    crate::primes::small::lemma_prime_44_bits();
    power_150_bits_to_34282281433_2();
    lemma_of_prime_order(
        0x1f4cfb5c1753681057167b61d5b00d91760efcint,
        0x7fb6219d9int,
        0x1abeb8e5da6ec819af61ce1a5b9f326e02c801int,
        0x22b559b5c816ae00f2378e18df38c5410ed597int,
        0x181e81e0426aed03ea56a9ef3be1a8cd661416int,
    );
    power_150_bits_to_44_bits_3();
    lemma_of_prime_order(
        0x2cbe55ea53ac8f31a83a9d88b34f81060f414int,
        0xa44e179dccfint,
        0xe62dfc289b94889baf37a7ecd87a1cba8a4a8int,
        0x22b559b5c816ae00f2378e18df38c5410ed597int,
        0x128bb03d7bb2a1c56a8b803543011de45b021int,
    );
    lemma_prime_by_two(
        0x22b559b5c816ae00f2378e18df38c5410ed597int,
        0x1f4cfb5c1753681057167b61d5b00d91760efcint,
        0x7fb6219d9int,
        0x1abeb8e5da6ec819af61ce1a5b9f326e02c801int,
        0x2cbe55ea53ac8f31a83a9d88b34f81060f414int,
        0xa44e179dccfint,
        0xe62dfc289b94889baf37a7ecd87a1cba8a4a8int,
    );
}

/// A power of an element, step by step.
proof fn power_160_bits_to_150_bits_0()
    ensures
        leaves(0x84f6174410b13b7c641bfb1c0429a24ea8e8db82int, 0x115anat, 0xbcf0cb0af1aa9d6f7695ac2d22ddff69c729b91int, 0x926d1276e41fae13fdda5f78edb7802a76951509int),
{
    let (b, m) = (0x84f6174410b13b7c641bfb1c0429a24ea8e8db82int, 0x926d1276e41fae13fdda5f78edb7802a76951509int);
    lemma_leaves_first(b, m);
    let e = 1nat;
    let e = lemma_leaves_square(b, e, 0x84f6174410b13b7c641bfb1c0429a24ea8e8db82int, m, 0x78bc14a2c651318eab04e3530c54ea14d6cfcea0int, 0x716368c5f08bdf6c4943d9ea39b018559b764a64int);
    let e = lemma_leaves_square(b, e, 0x716368c5f08bdf6c4943d9ea39b018559b764a64int, m, 0x57ce071634e61f945ade563176736e7b08f643e5int, 0x6ab32842e8421fff279f0be4d07f42e32b4acb03int);
    let e = lemma_leaves_square(b, e, 0x6ab32842e8421fff279f0be4d07f42e32b4acb03int, m, 0x4dc06609e8fbd756c25af536be8a67b99b6baca7int, 0x4c80de5574152e7ca5b9f82e5533ff723d93fd2aint);
    let e = lemma_leaves_square(b, e, 0x4c80de5574152e7ca5b9f82e5533ff723d93fd2aint, m, 0x27f88754752aed654b9df28e0dd6753c460adcb8int, 0x68797d6eefaaf4a280c4a0945780f47e1b03306cint);
    let e = lemma_leaves_next(b, e, 0x68797d6eefaaf4a280c4a0945780f47e1b03306cint, m, 0x5ede14315f05143eb7e54c1ffb6e58e4b06c0b5aint, 0x375bdf1039b31d96d440f07c543a79530bce32aeint);
    let e = lemma_leaves_square(b, e, 0x375bdf1039b31d96d440f07c543a79530bce32aeint, m, 0x14edeaf8abcb1a803f3888b4ae2537d28ad2ac96int, 0x3045d9bf8b8266961c7236aeaa8042b2cd320efeint);
    let e = lemma_leaves_square(b, e, 0x3045d9bf8b8266961c7236aeaa8042b2cd320efeint, m, 0xfea0f9e91b59bcde0845ca1dc5139ee877afbe9int, 0x2e389b2a6c6cdb1f0182abf9903d0d98c97ecbd3int);
    let e = lemma_leaves_next(b, e, 0x2e389b2a6c6cdb1f0182abf9903d0d98c97ecbd3int, m, 0x29f88696f02e5881bd55904c37a24e83123d8e73int, 0x20858902b4c5f9b5b72072b2305dad755e30911bint);
    let e = lemma_leaves_square(b, e, 0x20858902b4c5f9b5b72072b2305dad755e30911bint, m, 0x7391faca8059141a045018e6bf5b9c3d9e471b5int, 0x70483f8dfaf875e2771b5d5c41c2f5a08daac07cint);
    let e = lemma_leaves_square(b, e, 0x70483f8dfaf875e2771b5d5c41c2f5a08daac07cint, m, 0x56199f5a2348b92e0247ea8614dfb0db297905d6int, 0x635ef41275f547c6cff1a275476769946120798aint);
    let e = lemma_leaves_next(b, e, 0x635ef41275f547c6cff1a275476769946120798aint, m, 0x5a3bafb304ba18a48cd58685c02d8e80c25e3134int, 0x1f13f69411b88372f7534f4676e60d2ba4e9c740int);
    let e = lemma_leaves_square(b, e, 0x1f13f69411b88372f7534f4676e60d2ba4e9c740int, m, 0x69899fe4c316ecbf674ac68a008d581e8ab993eint, 0x5be7ee36c10b7c4530f9e6562c3af9f046e416d2int);
    let e = lemma_leaves_next(b, e, 0x5be7ee36c10b7c4530f9e6562c3af9f046e416d2int, m, 0x537464c720082cb1412309f7fded9c1875948880int, 0x749a0c98ecfbbf2c692e17d8cbe57473d9bdf024int);
    let e = lemma_leaves_square(b, e, 0x749a0c98ecfbbf2c692e17d8cbe57473d9bdf024int, m, 0x5cda24036ce06b76518921302e20843f5a2f6897int, 0x25a1b534cc520de2dd76efd1ae6f152df54974c1int);
    let e = lemma_leaves_square(b, e, 0x25a1b534cc520de2dd76efd1ae6f152df54974c1int, m, 0x9abdfd21487d480c5d980ad2e752850d3101ee8int, 0x433e5d60a011ed047d59f5b048abff8e8a2f5b59int);
    let e = lemma_leaves_next(b, e, 0x433e5d60a011ed047d59f5b048abff8e8a2f5b59int, m, 0x3d0f6618c37f728b241e6c922f3d63f661a1ee4bint, 0x27d7d500a81bff0dcdf4105012396383e4f4fe8fint);
    let e = lemma_leaves_square(b, e, 0x27d7d500a81bff0dcdf4105012396383e4f4fe8fint, m, 0xad769d86939d961a5eca7e003884698788299d0int, 0xbcf0cb0af1aa9d6f7695ac2d22ddff69c729b91int);
}

/// A power of an element, step by step.
proof fn power_160_bits_to_150_bits_1()
    ensures
        leaves(0x84f6174410b13b7c641bfb1c0429a24ea8e8db82int, 0x115aacdnat, 0x82e43bf9bad338697cfaca3c4e1d75a460461243int, 0x926d1276e41fae13fdda5f78edb7802a76951509int),
{
    let (b, m) = (0x84f6174410b13b7c641bfb1c0429a24ea8e8db82int, 0x926d1276e41fae13fdda5f78edb7802a76951509int);
    power_160_bits_to_150_bits_0();
    let e = 0x115anat;
    let e = lemma_leaves_square(b, e, 0xbcf0cb0af1aa9d6f7695ac2d22ddff69c729b91int, m, 0xf3cc95121ba4b8547b690b2cd6ac5720d9a172int, 0x3b89ffe2134df1c5fa1ee4c37d6a59081e6de11fint);
    let e = lemma_leaves_next(b, e, 0x3b89ffe2134df1c5fa1ee4c37d6a59081e6de11fint, m, 0x361067959a4ff3441b3460ab8ba21e1f5f7ed5c3int, 0x35a484198144c5f52614610266ddcda1bffc53e3int);
    let e = lemma_leaves_square(b, e, 0x35a484198144c5f52614610266ddcda1bffc53e3int, m, 0x13a6db1bedd9ad7b74c82078c93fe06b7e6d3054int, 0x93554632a72a15c586ddb55c20502a5bcb36455int);
    let e = lemma_leaves_square(b, e, 0x93554632a72a15c586ddb55c20502a5bcb36455int, m, 0x943eea28236e38fb320f294c9c1d10735f2e57int, 0x58fb11f8740b19b623b544aa27a023915e67c02aint);
    let e = lemma_leaves_next(b, e, 0x58fb11f8740b19b623b544aa27a023915e67c02aint, m, 0x50cc654724eec5c3b6f717637d86437acf3389e3int, 0x99e37b24122fd35adc1752ce79446601e50b59int);
    let e = lemma_leaves_square(b, e, 0x99e37b24122fd35adc1752ce79446601e50b59int, m, 0xa1bb40c42ad6ab8e511608fa52fb8b4d9c43int, 0x2be0c2ebe1ee77c6151cd385aab65f79e72fc796int);
    let e = lemma_leaves_square(b, e, 0x2be0c2ebe1ee77c6151cd385aab65f79e72fc796int, m, 0xd260133fa24396a30b3859580f77738abc33b58int, 0x1ba954278d3459e7e5818ac0cb1cb96670bb3dccint);
    let e = lemma_leaves_next(b, e, 0x1ba954278d3459e7e5818ac0cb1cb96670bb3dccint, m, 0x191e2845f42d6d2c97ac21f8df5dc3159b773f00int, 0x3dd0e0023af003206819acc3ab3c53e66376ae98int);
    let e = lemma_leaves_square(b, e, 0x3dd0e0023af003206819acc3ab3c53e66376ae98int, m, 0x1a18b436cd4a83859a24299a1414d3260ea36598int, 0x1cbbee3f3f7ec0a1195fca1871273ec6dea6efe8int);
    let e = lemma_leaves_next(b, e, 0x1cbbee3f3f7ec0a1195fca1871273ec6dea6efe8int, m, 0x1a178206ea27c9e7098f5a729d0ef3382e563374int, 0x3e54a23f06ad5e6698eed095e17bf12d6c7cf8bcint);
    let e = lemma_leaves_square(b, e, 0x3e54a23f06ad5e6698eed095e17bf12d6c7cf8bcint, m, 0x1a886a3512ff5acf00565ac322283ccc38bd7ce0int, 0x868d3a8f713c5ef2da912b7163d15a8a0f850630int);
    let e = lemma_leaves_square(b, e, 0x868d3a8f713c5ef2da912b7163d15a8a0f850630int, m, 0x7ba3e69997df113d84083f446f4cec958709e0c2int, 0x30dde5638507a052d7ab803f4a04ac164253782eint);
    let e = lemma_leaves_square(b, e, 0x30dde5638507a052d7ab803f4a04ac164253782eint, m, 0x104eedb7d30aa5b5c7dcf52bdf86c693e17e86c3int, 0x9df401b39ddc2c183be935033e353a43e3f6c69int);
    let e = lemma_leaves_next(b, e, 0x9df401b39ddc2c183be935033e353a43e3f6c69int, m, 0x8f6dab40c162790228fb8c1aa11bcb2591c15a4int, 0x62deed42c42f9332dce46eee14c9dd7664e3a98eint);
    let e = lemma_leaves_square(b, e, 0x62deed42c42f9332dce46eee14c9dd7664e3a98eint, m, 0x42c29dfba759729a7943c97bedcd83f4ce538041int, 0x76f15929768f950638c673725b704aeb5bd6f37bint);
    let e = lemma_leaves_next(b, e, 0x76f15929768f950638c673725b704aeb5bd6f37bint, m, 0x6c0158454f603b544d5bc86c6242990ea4dd0fbeint, 0x924a7806dc0cdd10a6496c0f4993af033943b9c8int);
    let e = lemma_leaves_square(b, e, 0x924a7806dc0cdd10a6496c0f4993af033943b9c8int, m, 0x9227e5c43eeed00cf413f266497987f9dab6b78aint, 0x8ac6af38e4b788a8b17ba3e658061d05b8b5e666int);
    let e = lemma_leaves_square(b, e, 0x8ac6af38e4b788a8b17ba3e658061d05b8b5e666int, m, 0x83869c99a64c5a08fc3ced37a1720e67da7d2280int, 0x76ba1c05baaf556b0687764902bb901f34dcba24int);
    let e = lemma_leaves_next(b, e, 0x76ba1c05baaf556b0687764902bb901f34dcba24int, m, 0x6bcf2f7ecaa26d394cc6bc7843e80e945fc06e1dint, 0x82e43bf9bad338697cfaca3c4e1d75a460461243int);
}

/// A power of an element, step by step.
proof fn power_160_bits_to_150_bits_2()
    ensures
        leaves(0x84f6174410b13b7c641bfb1c0429a24ea8e8db82int, 0x115aacdae4nat, 0x1eb55fe4917d64f80180ff3c6cbfe7fad479e040int, 0x926d1276e41fae13fdda5f78edb7802a76951509int),
{
    let (b, m) = (0x84f6174410b13b7c641bfb1c0429a24ea8e8db82int, 0x926d1276e41fae13fdda5f78edb7802a76951509int);
    power_160_bits_to_150_bits_1();
    let e = 0x115aacdnat;
    let e = lemma_leaves_square(b, e, 0x82e43bf9bad338697cfaca3c4e1d75a460461243int, m, 0x75014dd951fbe23a1339b48b6b6d4bd34b501dd0int, 0x1e7d0850f8770f1d7ca385fbf35c9d9dcb9e6139int);
    let e = lemma_leaves_next(b, e, 0x1e7d0850f8770f1d7ca385fbf35c9d9dcb9e6139int, m, 0x1baf4fe57c9a42056c8eff336fdcead1185f2da4int, 0x3698856517d819f3c4696517c8c53c5494b6132eint);
    let e = lemma_leaves_square(b, e, 0x3698856517d819f3c4696517c8c53c5494b6132eint, m, 0x145b39933095a34983ae805cff8044aacc987537int, 0x2ff3e5f998c331b2311879f9f7ddab4930db3a55int);
    let e = lemma_leaves_square(b, e, 0x2ff3e5f998c331b2311879f9f7ddab4930db3a55int, m, 0xfb43484c692ab196cd036ff938232025076ed8bint, 0x6bb4bc5a8ffaf9f7c27167025146b1e3d126df56int);
    let e = lemma_leaves_next(b, e, 0x6bb4bc5a8ffaf9f7c27167025146b1e3d126df56int, m, 0x61cd411dc9fc1aa1222deb6dbeabcd66914c46f3int, 0x9102c1d86ea19c9ec7e237a39f7c3f1da1cc8e21int);
    let e = lemma_leaves_square(b, e, 0x9102c1d86ea19c9ec7e237a39f7c3f1da1cc8e21int, m, 0x8f9bf1bbf4cbf95a8ec3cd240cbd32d4c2fbe420int, 0x6afb5d4f70571b685878b54928bc1d364a4efb21int);
    let e = lemma_leaves_square(b, e, 0x6afb5d4f70571b685878b54928bc1d364a4efb21int, m, 0x4e29c58b7a197396e0dcf2a261b8e1fcde226f0eint, 0x56caa250a88dd3c28a26ac9bc9771bd558fdacc3int);
    let e = lemma_leaves_next(b, e, 0x56caa250a88dd3c28a26ac9bc9771bd558fdacc3int, m, 0x4ecf7eb795fb96163f77964ae86cd4151911e05fint, 0x6482fcad59b482543add58d123cd79f10200ddafint);
    let e = lemma_leaves_square(b, e, 0x6482fcad59b482543add58d123cd79f10200ddafint, m, 0x44fe98a17cde2cf6f7327fdc8c0b0d45739390d5int, 0x32b86b654bd156395e042e25726b1e71d6ed0d24int);
    let e = lemma_leaves_next(b, e, 0x32b86b654bd156395e042e25726b1e71d6ed0d24int, m, 0x2e0e6c40dbfb6f3fd1d01736da5b6445ed58be13int, 0x811fb9d9ec1c878963c4b70ba83dfac874793a9dint);
    let e = lemma_leaves_square(b, e, 0x811fb9d9ec1c878963c4b70ba83dfac874793a9dint, m, 0x71ddc3ae3d69f5690a46e98f81dfed1dd83bf29eint, 0x63dec3fe04dbd8970e2832c71c423c682edd06bbint);
    let e = lemma_leaves_next(b, e, 0x63dec3fe04dbd8970e2832c71c423c682edd06bbint, m, 0x5aafbed2b101e94b57faecf8556a529f02e812d5int, 0x8331b22c010952ca24b949e3ffe0812a6aca4179int);
    let e = lemma_leaves_square(b, e, 0x8331b22c010952ca24b949e3ffe0812a6aca4179int, m, 0x758bf3998e486e3263bcf151f78cff91314c8b2eint, 0x517ef1348e143bc13bc27cf74d76d7515ed10093int);
    let e = lemma_leaves_square(b, e, 0x517ef1348e143bc13bc27cf74d76d7515ed10093int, m, 0x2d5b9e5711a1057fd40c26e07383544bc87d5915int, 0x2982cff87dc61b9b8a243f8da3afaa81081679acint);
    let e = lemma_leaves_square(b, e, 0x2982cff87dc61b9b8a243f8da3afaa81081679acint, m, 0xbc4a49df85fd9a8719de39d238960b141c57e0bint, 0x43534262f095a12f940694f60f200a71f1b4b62dint);
    let e = lemma_leaves_next(b, e, 0x43534262f095a12f940694f60f200a71f1b4b62dint, m, 0x3d225f3b52f92aaaa5247dd3b2fa9d948bd4cdf6int, 0x21d2ed2f8d03d83b8baf5624dc3e68d252d69634int);
    let e = lemma_leaves_square(b, e, 0x21d2ed2f8d03d83b8baf5624dc3e68d252d69634int, m, 0x7d02ee07b4f29d85362d0df6c1712110b3f4985int, 0x123eab7e9fa8b5e85f728a494179895818667be3int);
    let e = lemma_leaves_square(b, e, 0x123eab7e9fa8b5e85f728a494179895818667be3int, m, 0x245f81d4a7a4523f07dc37c6980cef41464c601int, 0x1eb55fe4917d64f80180ff3c6cbfe7fad479e040int);
}

/// A power of an element, step by step.
proof fn power_160_bits_to_150_bits_3()
    ensures
        leaves(0x84f6174410b13b7c641bfb1c0429a24ea8e8db82int, 0x115aacdae40b5nat, 0x59e934f920642790ed3a8e67c50d190209f251a7int, 0x926d1276e41fae13fdda5f78edb7802a76951509int),
{
    let (b, m) = (0x84f6174410b13b7c641bfb1c0429a24ea8e8db82int, 0x926d1276e41fae13fdda5f78edb7802a76951509int);
    power_160_bits_to_150_bits_2();
    let e = 0x115aacdae4nat;
    let e = lemma_leaves_square(b, e, 0x1eb55fe4917d64f80180ff3c6cbfe7fad479e040int, m, 0x670b046bbae0c77266d46791c0c5f3403f88656int, 0x2e8897e00232ec27228a43cb4dd30d9a662048faint);
    let e = lemma_leaves_square(b, e, 0x2e8897e00232ec27228a43cb4dd30d9a662048faint, m, 0xec9c53bf28bcd8917a1319a3164b91dd105bec4int, 0x821bc9d182c6ae8a990fabae863e6061595fcb40int);
    let e = lemma_leaves_square(b, e, 0x821bc9d182c6ae8a990fabae863e6061595fcb40int, m, 0x739c03e5192f9cba085ed20abdb0ede38558fe19int, 0x6d6a9d0dab22a98f5ba36a157916ecb59358941fint);
    let e = lemma_leaves_square(b, e, 0x6d6a9d0dab22a98f5ba36a157916ecb59358941fint, m, 0x51c2d9ea4ac8ec1d822ff74d7111d562aaadfb14int, 0x481fcd9ffc6482d6bcf4b456a9e121d924a9640dint);
    let e = lemma_leaves_square(b, e, 0x481fcd9ffc6482d6bcf4b456a9e121d924a9640dint, m, 0x23869b98f06cfd05f992845845d0c38fcd565460int, 0x53d4e43a4917587194d8aca9265d3a793f6f5149int);
    let e = lemma_leaves_next(b, e, 0x53d4e43a4917587194d8aca9265d3a793f6f5149int, m, 0x4c1f6e778e6b21e69ff6acea0acdb034c64c7c7bint, 0x29efbf7633ad2192d398024ff566cd1b9ebb42bfint);
    let e = lemma_leaves_square(b, e, 0x29efbf7633ad2192d398024ff566cd1b9ebb42bfint, m, 0xc02b990057a18e1551b88c9f39ee2955505c478int, 0x7ccf231b8662da7af35ac9dec811d438474a49int);
    let e = lemma_leaves_square(b, e, 0x7ccf231b8662da7af35ac9dec811d438474a49int, m, 0x6a622dd387516156e7fcf8c83fe03f5a4ed1int, 0x3bc3cc1695ebd61ac5e96c0250bf6cff61c35e78int);
    let e = lemma_leaves_next(b, e, 0x3bc3cc1695ebd61ac5e96c0250bf6cff61c35e78int, m, 0x3644e33027ba9ea479349e220f64b47d08f5e578int, 0x45820cc6debc8148709c241a87778b38c876b7b8int);
    let e = lemma_leaves_square(b, e, 0x45820cc6debc8148709c241a87778b38c876b7b8int, m, 0x20fec80d9dc5acbd7761df2d87e9f28af1a33df3int, 0x21722f501c0812f37cf37f8567a66d796e3777b5int);
    let e = lemma_leaves_next(b, e, 0x21722f501c0812f37cf37f8567a66d796e3777b5int, m, 0x1e5ed6f312f3303c7c47d5d4f41ddd02885002c6int, 0x668c7f8c3c3c29232540a77719a51e52735249f4int);
    let e = lemma_leaves_square(b, e, 0x668c7f8c3c3c29232540a77719a51e52735249f4int, m, 0x47d1d11072e09091cb58df41185b1f79fc5a1f4fint, 0x59c7b9904edf1d2712fe97c7e836e5ec6f57bc9int);
    let e = lemma_leaves_square(b, e, 0x59c7b9904edf1d2712fe97c7e836e5ec6f57bc9int, m, 0x370c51c2d4a13535d157eefac38f89eda18c96int, 0xd6d08895f7472e1040c5c871e8217b58410848bint);
    let e = lemma_leaves_next(b, e, 0xd6d08895f7472e1040c5c871e8217b58410848bint, m, 0xc30fa2633ca34666daac04be422c4e6366546bfint, 0x1fc099957732a7cec78afd32eeb7ef0218360fdfint);
    let e = lemma_leaves_square(b, e, 0x1fc099957732a7cec78afd32eeb7ef0218360fdfint, m, 0x6e2adbd0f8e9981453f4e7ac6889d377878ddf5int, 0x75c146ae0b75330c9d92297cb920fd313f01fda4int);
    let e = lemma_leaves_square(b, e, 0x75c146ae0b75330c9d92297cb920fd313f01fda4int, m, 0x5eb2a7ad3d97b44d0606430d442339144c7f8a6aint, 0xa1e02c9acbc62a4871d6b874bb48a391c0d0156int);
    let e = lemma_leaves_next(b, e, 0xa1e02c9acbc62a4871d6b874bb48a391c0d0156int, m, 0x92fd7f48e5e446459c6fba7194bf83fb55c2c1dint, 0x59e934f920642790ed3a8e67c50d190209f251a7int);
}

/// A power of an element, step by step.
proof fn power_160_bits_to_150_bits_4()
    ensures
        leaves(0x84f6174410b13b7c641bfb1c0429a24ea8e8db82int, 0x115aacdae40b5700nat, 0x5119851e343c6ed40eb034f7c7e80ae1ffde53e4int, 0x926d1276e41fae13fdda5f78edb7802a76951509int),
{
    let (b, m) = (0x84f6174410b13b7c641bfb1c0429a24ea8e8db82int, 0x926d1276e41fae13fdda5f78edb7802a76951509int);
    power_160_bits_to_150_bits_3();
    let e = 0x115aacdae40b5nat;
    let e = lemma_leaves_square(b, e, 0x59e934f920642790ed3a8e67c50d190209f251a7int, m, 0x3735686c6c198df150f2f0c6e1e089792ed9cd68int, 0x73a57dff9348cf75dd956d21de00b11b36bd5a49int);
    let e = lemma_leaves_square(b, e, 0x73a57dff9348cf75dd956d21de00b11b36bd5a49int, m, 0x5b563ee77a27617e5b41656fa54bf1b6bf854fcfint, 0x2f2b2b83982eb38f40b5f8f0509a6b11b2ea9f8aint);
    let e = lemma_leaves_next(b, e, 0x2f2b2b83982eb38f40b5f8f0509a6b11b2ea9f8aint, m, 0x2ad4c8ccb0d7aa92167451f993f41803fc7f5a66int, 0x589401711ddf683e3815bd7a2dbee609c26d867eint);
    let e = lemma_leaves_square(b, e, 0x589401711ddf683e3815bd7a2dbee609c26d867eint, m, 0x35957e52da56a7d30dbee9816e9849c4ad9d6431int, 0x7f23a7f27c8b12a9425151dd936c892dbae9b4bint);
    let e = lemma_leaves_next(b, e, 0x7f23a7f27c8b12a9425151dd936c892dbae9b4bint, m, 0x7372b34a5b4ce2486d20a242d7f0487e806708fint, 0x4970ae5df68c4f0bf076d67059b2a59ac4cb550fint);
    let e = lemma_leaves_square(b, e, 0x4970ae5df68c4f0bf076d67059b2a59ac4cb550fint, m, 0x24d580d70d8f1f40ea30d65b455694bbb940ab2aint, 0x3473efcbdcc3886f0de3c1a0944f50922d4a8067int);
    let e = lemma_leaves_next(b, e, 0x3473efcbdcc3886f0de3c1a0944f50922d4a8067int, m, 0x2fa127ebc3a2c6c9a0f1d2d6e4b2187f534fc948int, 0x571ecd38f19e6b29a7063ea387de9bcce0cc55c6int);
    let e = lemma_leaves_square(b, e, 0x571ecd38f19e6b29a7063ea387de9bcce0cc55c6int, m, 0x33d5ae6b1b3de6914c7ac4502ef35ae81c9eeac1int, 0x7ad7c6eff20a3d6efecb122cea9d87e3ad1fff5bint);
    let e = lemma_leaves_square(b, e, 0x7ad7c6eff20a3d6efecb122cea9d87e3ad1fff5bint, m, 0x670ed73475ca40c3c1717611347e6d56dd2a728eint, 0x6e8983be6f8b691246a4c9be0c190a827236bd5bint);
    let e = lemma_leaves_square(b, e, 0x6e8983be6f8b691246a4c9be0c190a827236bd5bint, m, 0x5371d1b7e506ba60b652108f5d4df480a230dd9cint, 0x22eef4c066fb6b3517fbe6bad55acac2e0c1e7ddint);
    let e = lemma_leaves_square(b, e, 0x22eef4c066fb6b3517fbe6bad55acac2e0c1e7ddint, m, 0x8558e148ee4fb3d866cce6a30ad632ba9aa8c85int, 0x3cba5b66f66b3f793bba23a8be5a1b47214bbb1cint);
    let e = lemma_leaves_square(b, e, 0x3cba5b66f66b3f793bba23a8be5a1b47214bbb1cint, m, 0x192f9cc89bef35484ebff63116198fae709168bdint, 0x7f98602edacaacec3cf8b479a90fb7e36c74bb6bint);
    let e = lemma_leaves_square(b, e, 0x7f98602edacaacec3cf8b479a90fb7e36c74bb6bint, m, 0x6f2fa2c39c376aad3ac21a6c00684ade0a1cf652int, 0x3ba8b862270209b191ac11ab05388ea2c53a1bd7int);
    let e = lemma_leaves_square(b, e, 0x3ba8b862270209b191ac11ab05388ea2c53a1bd7int, m, 0x184ea2fbb4b918ba5d13d4cce10267d51ab866f8int, 0x222963d76eda0ad9ae493863b277a8fc372d17d9int);
    let e = lemma_leaves_square(b, e, 0x222963d76eda0ad9ae493863b277a8fc372d17d9int, m, 0x7f853ff0099c6d5b6496c66e96cde2c4d4149e5int, 0x5119851e343c6ed40eb034f7c7e80ae1ffde53e4int);
}

/// A power of an element, step by step.
proof fn power_160_bits_to_150_bits_5()
    ensures
        leaves(0x84f6174410b13b7c641bfb1c0429a24ea8e8db82int, 0x115aacdae40b5700791nat, 0x9078e5ccc9ecd85483f472b9278e270a8f9896e1int, 0x926d1276e41fae13fdda5f78edb7802a76951509int),
{
    let (b, m) = (0x84f6174410b13b7c641bfb1c0429a24ea8e8db82int, 0x926d1276e41fae13fdda5f78edb7802a76951509int);
    power_160_bits_to_150_bits_4();
    let e = 0x115aacdae40b5700nat;
    let e = lemma_leaves_square(b, e, 0x5119851e343c6ed40eb034f7c7e80ae1ffde53e4int, m, 0x2ceaff193861899320ed0b9b0a4d53590f4b4e0fint, 0x23932473d60d24c7d2fd94c28acdcb55c325a989int);
    let e = lemma_leaves_square(b, e, 0x23932473d60d24c7d2fd94c28acdcb55c325a989int, m, 0x8a49d8196a7bd40632ad29980abed2badd31ed6int, 0xd54a333482fd759f8222ac415fac9cc235e87cbint);
    let e = lemma_leaves_next(b, e, 0xd54a333482fd759f8222ac415fac9cc235e87cbint, m, 0xc1ad31c17c5a43c1db5920c45402757fc7b345bint, 0x49341f226084557c8b6055ab36ed99fab58c4fe3int);
    let e = lemma_leaves_square(b, e, 0x49341f226084557c8b6055ab36ed99fab58c4fe3int, m, 0x2498da8ed89e69178621080c97e400577a4f64f2int, 0x202a08ddbac28c1061e5c65ff5c38aad5a497cc7int);
    let e = lemma_leaves_next(b, e, 0x202a08ddbac28c1061e5c65ff5c38aad5a497cc7int, m, 0x1d34dd688c2f9e16d3c2edd9948421e8f4b0287fint, 0xfdf52541623ee92d39c7dbfb4c5a81739f8c297int);
    let e = lemma_leaves_square(b, e, 0xfdf52541623ee92d39c7dbfb4c5a81739f8c297int, m, 0x1b87520e00b84c791279e8fd467e5c966dabd19int, 0x8768f1f2b5f183fbbac01f87aa2f0f6ab1b88230int);
    let e = lemma_leaves_next(b, e, 0x8768f1f2b5f183fbbac01f87aa2f0f6ab1b88230int, m, 0x7af54ab0f5ed90393e5881ffbf5378411e71172dint, 0x8c772e921106c12291b55a0ed4a791cffe7faacbint);
    let e = lemma_leaves_square(b, e, 0x8c772e921106c12291b55a0ed4a791cffe7faacbint, m, 0x86bf67d064ed6f49573b16888a5dd471aeb9544bint, 0x640df61cb667c24dc34e48f9a338284c1471f56int);
    let e = lemma_leaves_next(b, e, 0x640df61cb667c24dc34e48f9a338284c1471f56int, m, 0x5ada99eb10684b4e766611f5ad9e6968cfd4b07int, 0x4d9c8fa695b7224f4c72988c77f891f732ba456dint);
    let e = lemma_leaves_square(b, e, 0x4d9c8fa695b7224f4c72988c77f891f732ba456dint, m, 0x29231e3be29717a048b4a2b8056094f11d1aabf1int, 0x5dc5bb5a29b84a2b4826ceb9b657c7cf29e81ff0int);
    let e = lemma_leaves_square(b, e, 0x5dc5bb5a29b84a2b4826ceb9b657c7cf29e81ff0int, m, 0x3c0d751b846d21520162bb2225a4eafdcb13f594int, 0x5a7485917d3938f93bf03c172ac52e27d8ff3accint);
    let e = lemma_leaves_square(b, e, 0x5a7485917d3938f93bf03c172ac52e27d8ff3accint, m, 0x37e103b5110ade7ada76138a1511771325e3fe42int, 0x67dc5e7becf937278457fbec9d184e54fe9fb83eint);
    let e = lemma_leaves_next(b, e, 0x67dc5e7becf937278457fbec9d184e54fe9fb83eint, m, 0x5e4f67fd469f6db9f564bd5fab321c00dc428e90int, 0x4e2ea65a06f2e8bb73c9ee6f00701b5b0a0fc66cint);
    let e = lemma_leaves_square(b, e, 0x4e2ea65a06f2e8bb73c9ee6f00701b5b0a0fc66cint, m, 0x29be8d8c4b5680d11a31fb0c261fe22a3ac43a6dint, 0x3d249dc0e7ab781136993d49d4cedece1513ebbint);
    let e = lemma_leaves_square(b, e, 0x3d249dc0e7ab781136993d49d4cedece1513ebbint, m, 0x19880d686938cdfb532839218ac5b304f0b485int, 0x43261df785b8e84b3af7aa3fc3e53d022d06daecint);
    let e = lemma_leaves_square(b, e, 0x43261df785b8e84b3af7aa3fc3e53d022d06daecint, m, 0x1ecb2433ae3893943c1b934f5af29b5dff166743int, 0xa3700254bc2302023b0ee5b72cfe3fa2c05a935int);
    let e = lemma_leaves_square(b, e, 0xa3700254bc2302023b0ee5b72cfe3fa2c05a935int, m, 0xb66ce4bdac1898eea16334b0f41638fae96581int, 0x31c55ea18bac6d9fbd2d5c5199ef316cc24bde70int);
    let e = lemma_leaves_next(b, e, 0x31c55ea18bac6d9fbd2d5c5199ef316cc24bde70int, m, 0x2d31b91161e14bc7fca71335ce712a39ffd734c7int, 0x9078e5ccc9ecd85483f472b9278e270a8f9896e1int);
}

/// A power of an element, step by step.
proof fn power_160_bits_to_150_bits_6()
    ensures
        leaves(0x84f6174410b13b7c641bfb1c0429a24ea8e8db82int, 0x115aacdae40b5700791bc7nat, 0x4b1912cc7ab91bf64af11d01a581fffb79aba969int, 0x926d1276e41fae13fdda5f78edb7802a76951509int),
{
    let (b, m) = (0x84f6174410b13b7c641bfb1c0429a24ea8e8db82int, 0x926d1276e41fae13fdda5f78edb7802a76951509int);
    power_160_bits_to_150_bits_5();
    let e = 0x115aacdae40b5700791nat;
    let e = lemma_leaves_square(b, e, 0x9078e5ccc9ecd85483f472b9278e270a8f9896e1int, m, 0x8e8b65ac6dc156fe6146fa89c493e5f182d47813int, 0xc6498707681bbf3f411bc9aa3a2fdbd35bbaa16int);
    let e = lemma_leaves_next(b, e, 0xc6498707681bbf3f411bc9aa3a2fdbd35bbaa16int, m, 0xb40db1f130167b2d215f43cc0334eb41e2d5fadint, 0x8118fed6ae80bb618d8c65ba5ff317be319aa317int);
    let e = lemma_leaves_square(b, e, 0x8118fed6ae80bb618d8c65ba5ff317be319aa317int, m, 0x71d1e5283a8a1beba9b3afaf515df685aa3cc4c9int, 0x6d50d8d30f5abc9b6adc843469484544464de400int);
    let e = lemma_leaves_square(b, e, 0x6d50d8d30f5abc9b6adc843469484544464de400int, m, 0x519c5c6c36d04f06cd6f3020422da66334fa8fdcint, 0x244f1f39e8c3d6125e9f3af089dfe5506567e544int);
    let e = lemma_leaves_next(b, e, 0x244f1f39e8c3d6125e9f3af089dfe5506567e544int, m, 0x20f860f67962988223d35ab1a79290df49f94ca6int, 0x5f4943b9999a2e44121b782322eb3d5297d848b2int);
    let e = lemma_leaves_square(b, e, 0x5f4943b9999a2e44121b782322eb3d5297d848b2int, m, 0x3e01d26216ff8f7b6e9297b754fc4b202465097cint, 0x3235b81a51e39d79c8ebe7962796abe17e841a68int);
    let e = lemma_leaves_next(b, e, 0x3235b81a51e39d79c8ebe7962796abe17e841a68int, m, 0x2d97bdbf2a97df74dc4caf20a7a21b758b4ac3feint, 0x5a45ef4b7370c26d8053bd60e72518634161a6e2int);
    let e = lemma_leaves_square(b, e, 0x5a45ef4b7370c26d8053bd60e72518634161a6e2int, m, 0x37a7838b05bc956a76adcc37675465dd084e884bint, 0x3912d15f2d54940afabd6640d36693810675ede1int);
    let e = lemma_leaves_next(b, e, 0x3912d15f2d54940afabd6640d36693810675ede1int, m, 0x33d343924e7a0cf71f721dbbd2f6e8eab98d71d7int, 0x88cabdeb487eb941bb2c0297a5319309e9d7a3b3int);
    let e = lemma_leaves_square(b, e, 0x88cabdeb487eb941bb2c0297a5319309e9d7a3b3int, m, 0x7fcaaf0e3c97a576edfb9e4accddf363ef31ff46int, 0x413d430af9caa7337699bbfdac386bd3dae6b7b3int);
    let e = lemma_leaves_next(b, e, 0x413d430af9caa7337699bbfdac386bd3dae6b7b3int, m, 0x3b3d7a985f293075f1b49c31ee8bff98d3867573int, 0xf5720145afe145e803d074cf36ca409a53bd9dbint);
    let e = lemma_leaves_square(b, e, 0xf5720145afe145e803d074cf36ca409a53bd9dbint, m, 0x19b6ceb3af7a777fb1ec870e4a85480c76815f5int, 0xdb7ae4158583a120c056020a1db7170304822bcint);
    let e = lemma_leaves_square(b, e, 0xdb7ae4158583a120c056020a1db7170304822bcint, m, 0x148fb4e079793b4c3327e0fe6787cb7dfb3ce80int, 0x8624c5686a04ec5c792fc617cfb2103340b3b790int);
    let e = lemma_leaves_square(b, e, 0x8624c5686a04ec5c792fc617cfb2103340b3b790int, m, 0x7ae437f2d1a1c2a78717ab16d94569d7f12154b3int, 0x69e11d0dad988cae6957c20b7d6cf32432b187b5int);
    let e = lemma_leaves_square(b, e, 0x69e11d0dad988cae6957c20b7d6cf32432b187b5int, m, 0x4c8f75cc481f2b6d6a07d7c9b6db95e9489b14cdint, 0xfa29ec48ce3f5cec7538f7241ab8d63c4c0d9c4int);
    let e = lemma_leaves_next(b, e, 0xfa29ec48ce3f5cec7538f7241ab8d63c4c0d9c4int, m, 0xe328e08dd6dc0df61195033750a8b192a7635ddint, 0x24745635b5bf15f57251ef1aed40e71f75a53bc3int);
    let e = lemma_leaves_square(b, e, 0x24745635b5bf15f57251ef1aed40e71f75a53bc3int, m, 0x913644d425d6567469ac58e1941146cc45e51c4int, 0xd724f5156e1050383e101ac4e2f03d3c23782a5int);
    let e = lemma_leaves_next(b, e, 0xd724f5156e1050383e101ac4e2f03d3c23782a5int, m, 0xc35c4b7c02941d8191b36052d44f1a371a3a1b4int, 0x297dd81f6b487668f8fc08d13e65c19f49b30b76int);
    let e = lemma_leaves_square(b, e, 0x297dd81f6b487668f8fc08d13e65c19f49b30b76int, m, 0xbc1d3a96c204bafa818f68c0451a72b65f57827int, 0x59de5af47b1ac740455c2bcb2ff29ecbb257ee05int);
    let e = lemma_leaves_next(b, e, 0x59de5af47b1ac740455c2bcb2ff29ecbb257ee05int, m, 0x519ac7cc3e1eaa22e03377b832579be055bacc59int, 0x4b1912cc7ab91bf64af11d01a581fffb79aba969int);
}

/// A power of an element, step by step.
proof fn power_160_bits_to_150_bits_7()
    ensures
        leaves(0x84f6174410b13b7c641bfb1c0429a24ea8e8db82int, 0x115aacdae40b5700791bc70c6nat, 0x696c0d3b5e2d8de4c84ebb2963ab7744ecf82283int, 0x926d1276e41fae13fdda5f78edb7802a76951509int),
{
    let (b, m) = (0x84f6174410b13b7c641bfb1c0429a24ea8e8db82int, 0x926d1276e41fae13fdda5f78edb7802a76951509int);
    power_160_bits_to_150_bits_6();
    let e = 0x115aacdae40b5700791bc7nat;
    let e = lemma_leaves_square(b, e, 0x4b1912cc7ab91bf64af11d01a581fffb79aba969int, m, 0x2684045a3defcb6e658e75423ebf6185418c9848int, 0x654ddc4f25cc539ad3baedf03a95ce415c0a8a89int);
    let e = lemma_leaves_square(b, e, 0x654ddc4f25cc539ad3baedf03a95ce415c0a8a89int, m, 0x4616365dbe6c8d8f359da26ace6916a22c099b28int, 0x86e4ea559671a2e86ebecb9166e3cc97815340e9int);
    let e = lemma_leaves_square(b, e, 0x86e4ea559671a2e86ebecb9166e3cc97815340e9int, m, 0x7c4541dd508773363fbf909f3d263efb6bb32c03int, 0x265ea01336e221626fd28adaf62c189f7de388f6int);
    let e = lemma_leaves_square(b, e, 0x265ea01336e221626fd28adaf62c189f7de388f6int, m, 0xa0dee305e4a788279cc6b73be794981a4c5e6dfint, 0x1d04d7e4e627a177ac8971d07cc6874d38d9e38dint);
    let e = lemma_leaves_square(b, e, 0x1d04d7e4e627a177ac8971d07cc6874d38d9e38dint, m, 0x5c042284255cf43c3d44abea1888b46de75131cint, 0x2cfbfddca7f6314adb708ae16a035c8acb5263adint);
    let e = lemma_leaves_next(b, e, 0x2cfbfddca7f6314adb708ae16a035c8acb5263adint, m, 0x28d906a1c8d2c79c036437e8e750c0acf89cd7e3int, 0x6642f1f2223983a2ad2aa984191d06b0b38b66dfint);
    let e = lemma_leaves_square(b, e, 0x6642f1f2223983a2ad2aa984191d06b0b38b66dfint, m, 0x476aef8f9f505dd6709b675889714a3a0f590cebint, 0x1ca5ec34f1d91c203b232f83d5f32bc10a88bafeint);
    let e = lemma_leaves_next(b, e, 0x1ca5ec34f1d91c203b232f83d5f32bc10a88bafeint, m, 0x1a03861237ad6d63b1b0056b3cd17d23ec613c7cint, 0x1890e284edc28c2d4f2f6310821cac95d208f2a0int);
    let e = lemma_leaves_square(b, e, 0x1890e284edc28c2d4f2f6310821cac95d208f2a0int, m, 0x41f16aef64b9521fbd2625295508ca3f9a52562int, 0x7c2dfeed4a5543fbe001361a7d0c28f24f09898eint);
    let e = lemma_leaves_square(b, e, 0x7c2dfeed4a5543fbe001361a7d0c28f24f09898eint, m, 0x69502af31f7c081d420b1856088c4f1e3d37be88int, 0x4ac2800caaa56d90f29c60b340dc7b0e4b266ffcint);
    let e = lemma_leaves_square(b, e, 0x4ac2800caaa56d90f29c60b340dc7b0e4b266ffcint, m, 0x262b6a323d67528de2076f328869fe8de8227dccint, 0x1a826642686e354c15e728648a69b663da8857e4int);
    let e = lemma_leaves_square(b, e, 0x1a826642686e354c15e728648a69b663da8857e4int, m, 0x4cca0d3228c1cf612a611a785c15fe074e37c89int, 0x29437c25e0fd538fbea1a065eb4c0de26979253fint);
    let e = lemma_leaves_next(b, e, 0x29437c25e0fd538fbea1a065eb4c0de26979253fint, m, 0x25781ba700a965b21e1774358b542a082f6d432cint, 0x8642f4d4880a1e936c69b30a4279e7ad4983d672int);
    let e = lemma_leaves_square(b, e, 0x8642f4d4880a1e936c69b30a4279e7ad4983d672int, m, 0x7b1b8ca4380102d9e213788f0354a6e07c621b55int, 0x161b2594ca98475ec646314983e42488ae24dbc7int);
    let e = lemma_leaves_next(b, e, 0x161b2594ca98475ec646314983e42488ae24dbc7int, m, 0x1412c0f298aff8becfcc938b2a46c53d8e6a2df4int, 0x1139f245c78773da71443f3efb7a05c9cc8e367aint);
    let e = lemma_leaves_square(b, e, 0x1139f245c78773da71443f3efb7a05c9cc8e367aint, m, 0x206cf5687deb98f159d0133271124fc4494a3d9int, 0x696c0d3b5e2d8de4c84ebb2963ab7744ecf82283int);
}

/// A power of an element, step by step.
proof fn power_160_bits_to_150_bits_8()
    ensures
        leaves(0x84f6174410b13b7c641bfb1c0429a24ea8e8db82int, 0x115aacdae40b5700791bc70c6f9cnat, 0x6d587af760960456b4a583938ee75d5abc652f41int, 0x926d1276e41fae13fdda5f78edb7802a76951509int),
{
    let (b, m) = (0x84f6174410b13b7c641bfb1c0429a24ea8e8db82int, 0x926d1276e41fae13fdda5f78edb7802a76951509int);
    power_160_bits_to_150_bits_7();
    let e = 0x115aacdae40b5700791bc70c6nat;
    let e = lemma_leaves_square(b, e, 0x696c0d3b5e2d8de4c84ebb2963ab7744ecf82283int, m, 0x4be68877c39618f479f154c0a51b34695a1bcefcint, 0x2d3ab24664b5c0d33b26b0bccff6dab456d61c2dint);
    let e = lemma_leaves_next(b, e, 0x2d3ab24664b5c0d33b26b0bccff6dab456d61c2dint, m, 0x2911f6ed7898e9311cc4415fb63e888abdecdf4eint, 0x58482f77c94d9329f13c74951a2d0f0d4b918e1cint);
    let e = lemma_leaves_square(b, e, 0x58482f77c94d9329f13c74951a2d0f0d4b918e1cint, m, 0x3539ea10e559333863654f30e97e72ff9a8a428dint, 0x55ada54732b9bb589f7ed9f48af437ed32382b1bint);
    let e = lemma_leaves_next(b, e, 0x55ada54732b9bb589f7ed9f48af437ed32382b1bint, m, 0x4dccb68670dd9ca127c8fe2c8d9804259e94450cint, 0x8e278a347fc1c6555055512e2d63b467e101934aint);
    let e = lemma_leaves_square(b, e, 0x8e278a347fc1c6555055512e2d63b467e101934aint, m, 0x8a01e89cb54db88d86b05d919255f969866f7b2cint, 0x44ec88c128a28eb8f74d8028663216d8b7b020d8int);
    let e = lemma_leaves_next(b, e, 0x44ec88c128a28eb8f74d8028663216d8b7b020d8int, m, 0x3e9602f4fa4a973164ee29d224e4e65322e241e3int, 0x41bd6250464be1c6ded733ea2d39ec16b2ce85b5int);
    let e = lemma_leaves_square(b, e, 0x41bd6250464be1c6ded733ea2d39ec16b2ce85b5int, m, 0x1d83c246d0e66d0e2eea36462a46ae78ed17ce55int, 0x3af3440e3f7c801337a5eaca9c362c0b99e557fcint);
    let e = lemma_leaves_next(b, e, 0x3af3440e3f7c801337a5eaca9c362c0b99e557fcint, m, 0x35878824acf5f2c79ebf20798145aaf324dbff68int, 0x5674e05f7ba6e986c2d0f41a837dd38085e3bf50int);
    let e = lemma_leaves_square(b, e, 0x5674e05f7ba6e986c2d0f41a837dd38085e3bf50int, m, 0x330c3f7f64af8c0ec8ae4170c316cc958be561f2int, 0x903f0549ef10b70473c84994dc8ef04eace52d7eint);
    let e = lemma_leaves_next(b, e, 0x903f0549ef10b70473c84994dc8ef04eace52d7eint, m, 0x82fb5b0c2eef04b784ca8ab57c6e396fc94facfbint, 0x3425d3afd34e2b1e7855fb20634a0d10c7673829int);
    let e = lemma_leaves_square(b, e, 0x3425d3afd34e2b1e7855fb20634a0d10c7673829int, m, 0x12925e8e3ff6a5c7838be15585687255c5eb2257int, 0x1f65e8c3862098ee592f5794b97d0dd8a5979e82int);
    let e = lemma_leaves_square(b, e, 0x1f65e8c3862098ee592f5794b97d0dd8a5979e82int, m, 0x6bb90d22e10f4c21ede9d82ecac7bd0af6f6647int, 0x7ae656ce479a7958c5f52e98e34e462463df4e85int);
    let e = lemma_leaves_square(b, e, 0x7ae656ce479a7958c5f52e98e34e462463df4e85int, m, 0x6727479444a61f90b2dbc4549bb5b3657744832eint, 0x100122f65c54650b8834349954e824af63d9ee7bint);
    let e = lemma_leaves_next(b, e, 0x100122f65c54650b8834349954e824af63d9ee7bint, m, 0xe88613dcb2b9e4d27b052f20ed92b4353334bd2int, 0x3684d48d5c8de9512d41b4a60a981f83ebe66f14int);
    let e = lemma_leaves_square(b, e, 0x3684d48d5c8de9512d41b4a60a981f83ebe66f14int, m, 0x144c8d35a19afcdf7642ad63deef62a174d582c7int, 0x24ac14510c3c5cf54e78e6e49cdc505d09136d91int);
    let e = lemma_leaves_next(b, e, 0x24ac14510c3c5cf54e78e6e49cdc505d09136d91int, m, 0x214cc9c3f2b9faf2e60941641293851c5b285ca9int, 0x575e6efe6475727871c4d01bc0fc254b559e8fb1int);
    let e = lemma_leaves_square(b, e, 0x575e6efe6475727871c4d01bc0fc254b559e8fb1int, m, 0x34218230686e87076d920dd9d8f3f3442930c040int, 0x4acae5682ef4faf236e0b0c70c7be81361673621int);
    let e = lemma_leaves_next(b, e, 0x4acae5682ef4faf236e0b0c70c7be81361673621int, m, 0x43ea38dd08f8512032e58ab242b0915d8112e409int, 0xfb41bf36754fa2a3cebd9a80d5348d28203f671int);
    let e = lemma_leaves_square(b, e, 0xfb41bf36754fa2a3cebd9a80d5348d28203f671int, m, 0x1af2397d44963a4937e12b8302c50801a9219b9int, 0x229f02d84f1d9e32883d5e8bc66209d14df74960int);
    let e = lemma_leaves_square(b, e, 0x229f02d84f1d9e32883d5e8bc66209d14df74960int, m, 0x82f947855a3ecac01c8af210924a2b76ccbf587int, 0x6d587af760960456b4a583938ee75d5abc652f41int);
}

/// A power of an element, step by step.
proof fn power_160_bits_to_150_bits_9()
    ensures
        leaves(0x84f6174410b13b7c641bfb1c0429a24ea8e8db82int, 0x115aacdae40b5700791bc70c6f9c62anat, 0x6612916104a493450a084aedbd746b56a189e009int, 0x926d1276e41fae13fdda5f78edb7802a76951509int),
{
    let (b, m) = (0x84f6174410b13b7c641bfb1c0429a24ea8e8db82int, 0x926d1276e41fae13fdda5f78edb7802a76951509int);
    power_160_bits_to_150_bits_8();
    let e = 0x115aacdae40b5700791bc70c6f9cnat;
    let e = lemma_leaves_square(b, e, 0x6d587af760960456b4a583938ee75d5abc652f41int, m, 0x51a7c2968b6c33c5070a39f8f284b2e3d0d1c959int, 0x7e4b05a6f84682f6da1e2781e486797306518d60int);
    let e = lemma_leaves_square(b, e, 0x7e4b05a6f84682f6da1e2781e486797306518d60int, m, 0x6ceda236e5a7186732b98a31de375f910397756eint, 0x895799fb52ffe8e25fa3e635da874422aad7bd22int);
    let e = lemma_leaves_next(b, e, 0x895799fb52ffe8e25fa3e635da874422aad7bd22int, m, 0x7cb67622e2226874683449ab0482c70d072c33c9int, 0x175c855187c468982d05a0c275bb31205c5fd233int);
    let e = lemma_leaves_square(b, e, 0x175c855187c468982d05a0c275bb31205c5fd233int, m, 0x3ba28168a4fbf628b8f2076d48324d2bb12b029int, 0x3aff8512e887a379fc7f062fe54b9b23cc7927b8int);
    let e = lemma_leaves_next(b, e, 0x3aff8512e887a379fc7f062fe54b9b23cc7927b8int, m, 0x3592a8b188ae9359e29ffee2b9a0eff9263521c1int, 0x4189f9ab02a482b112b62c1887bb1dfbea488ea7int);
    let e = lemma_leaves_square(b, e, 0x4189f9ab02a482b112b62c1887bb1dfbea488ea7int, m, 0x1d55ab0ef6f49d59050b17586e0b490d73357f64int, 0x18d45a1731129f65ba1440806cb501a42be5026dint);
    let e = lemma_leaves_square(b, e, 0x18d45a1731129f65ba1440806cb501a42be5026dint, m, 0x435d915f0768e390d8b41cbee048ef67c9b6d04int, 0x514e37c031f5040e393efd9d1a716514884bb945int);
    let e = lemma_leaves_square(b, e, 0x514e37c031f5040e393efd9d1a716514884bb945int, m, 0x2d2571ef6678801ce71f1b60a9231fed6c7c8510int, 0x5d4252bae27cb4ff9667ecfb110df8598ae7cf09int);
    let e = lemma_leaves_square(b, e, 0x5d4252bae27cb4ff9667ecfb110df8598ae7cf09int, m, 0x3b659b9b49594bea2f7570bd836d7cd68e88cbf1int, 0x4c0968a3156ca3091bfe4965633c2af8f8de9dd8int);
    let e = lemma_leaves_next(b, e, 0x4c0968a3156ca3091bfe4965633c2af8f8de9dd8int, m, 0x450b72103ee944d674eb84c540039923335bd500int, 0x112691762a072bccdfa9630a0c28c8654e2072b0int);
    let e = lemma_leaves_square(b, e, 0x112691762a072bccdfa9630a0c28c8654e2072b0int, m, 0x20242ab5923f4a4bd95db4ce65983cff9fd9cfbint, 0x74d6708a2478355196b1ccf358e1eee8777f1d2dint);
    let e = lemma_leaves_square(b, e, 0x74d6708a2478355196b1ccf358e1eee8777f1d2dint, m, 0x5d3a6afd81c8167b796e203d82056bc90f886635int, 0x1a1d1540256150bb35a717d413f0834424f2490cint);
    let e = lemma_leaves_next(b, e, 0x1a1d1540256150bb35a717d413f0834424f2490cint, m, 0x17b6594bbe519c84bd5ada72031f909e608ba36fint, 0x5376551079549132421e9a8de5c55711f77a8231int);
    let e = lemma_leaves_square(b, e, 0x5376551079549132421e9a8de5c55711f77a8231int, m, 0x2f92b807cb21ae7ace3a85762a5e7f27285cdc76int, 0x8169190373e0e7b8c684a646eb7314a628e25f3bint);
    let e = lemma_leaves_square(b, e, 0x8169190373e0e7b8c684a646eb7314a628e25f3bint, m, 0x725f4fd2c421b81bdd81d06beca2b2974d15ab3cint, 0x2a55bb6ccb381a00564cc3fe82f79b6be8dde67dint);
    let e = lemma_leaves_next(b, e, 0x2a55bb6ccb381a00564cc3fe82f79b6be8dde67dint, m, 0x267122f10ca228da3ba49bbb2c4bbd3f7478911bint, 0x42c1f61134c7a16736e4655ef35ab22d1b48a987int);
    let e = lemma_leaves_square(b, e, 0x42c1f61134c7a16736e4655ef35ab22d1b48a987int, m, 0x1e6f8c87069afdd596f11bb35f45fdb824fc2de8int, 0x6612916104a493450a084aedbd746b56a189e009int);
}

/// A power of an element, step by step.
proof fn power_160_bits_to_150_bits_10()
    ensures
        leaves(0x84f6174410b13b7c641bfb1c0429a24ea8e8db82int, 0x115aacdae40b5700791bc70c6f9c62a087nat, 0x6a1f7722bf1424ff76bb746d352614d8e88c37b9int, 0x926d1276e41fae13fdda5f78edb7802a76951509int),
{
    let (b, m) = (0x84f6174410b13b7c641bfb1c0429a24ea8e8db82int, 0x926d1276e41fae13fdda5f78edb7802a76951509int);
    power_160_bits_to_150_bits_9();
    let e = 0x115aacdae40b5700791bc70c6f9c62anat;
    let e = lemma_leaves_square(b, e, 0x6612916104a493450a084aedbd746b56a189e009int, m, 0x47276d327083c09f9fb1bce278e19d8968a9c643int, 0x45a2fb0b7982a884c9039dc4e90cbf7cfd7748f6int);
    let e = lemma_leaves_square(b, e, 0x45a2fb0b7982a884c9039dc4e90cbf7cfd7748f6int, m, 0x211e131abbcf3bb6672653cf9c51bef01e9c2d52int, 0x2961fbd297ad3d84fa6aef7ab92519e9158ffa82int);
    let e = lemma_leaves_square(b, e, 0x2961fbd297ad3d84fa6aef7ab92519e9158ffa82int, m, 0xbb20eeae106b9b2b93e5dcf78f891eadd268295int, 0x53802be4b224866dfba1437f06f18b44889459c7int);
    let e = lemma_leaves_square(b, e, 0x53802be4b224866dfba1437f06f18b44889459c7int, m, 0x2f9df022a2d8700a3d46d8bbbdccc1c3b19eb980int, 0x3ca9352df8b5a46a909ef7dd3fb1e9bd2247f331int);
    let e = lemma_leaves_square(b, e, 0x3ca9352df8b5a46a909ef7dd3fb1e9bd2247f331int, m, 0x1921653ccfd4b232b4fe8b03d820af4696d87c24int, 0xc92189a6a0ffe69c64b2cb01ece922fe774be1dint);
    let e = lemma_leaves_next(b, e, 0xc92189a6a0ffe69c64b2cb01ece922fe774be1dint, m, 0xb6a2c2a5c53cb40c74d322c46a3ce23d5415355int, 0x6fd948ba6c1c16b15d1e89ee3fd14598309872bdint);
    let e = lemma_leaves_square(b, e, 0x6fd948ba6c1c16b15d1e89ee3fd14598309872bdint, m, 0x556fc5ae2d23a40462809b5f38e11d44334fa656int, 0x5c4e9399ada21e5fd1df0edf97562a80895cf883int);
    let e = lemma_leaves_square(b, e, 0x5c4e9399ada21e5fd1df0edf97562a80895cf883int, m, 0x3a30b5139c564081a35f583753e0cc9cd90fa39aint, 0x51f456615810c05070f22065efc0b0a6a6cbb09fint);
    let e = lemma_leaves_square(b, e, 0x51f456615810c05070f22065efc0b0a6a6cbb09fint, m, 0x2ddea9a6e597677fef4891dc99c4daa023fbc4a4int, 0x80aa95639e230fa3df7f7bbd3ae65a9d395a4fdint);
    let e = lemma_leaves_square(b, e, 0x80aa95639e230fa3df7f7bbd3ae65a9d395a4fdint, m, 0x710f87855f604ddc6067d4f45c4537161279a1int, 0x4789190540db6b7c4a479422c377b8823b81a660int);
    let e = lemma_leaves_square(b, e, 0x4789190540db6b7c4a479422c377b8823b81a660int, m, 0x22f2bfdc6de0488f8546257a0646d371fc054ba6int, 0x54432d9baa287068c44311746638abfb81de5d2aint);
    let e = lemma_leaves_next(b, e, 0x54432d9baa287068c44311746638abfb81de5d2aint, m, 0x4c83939d9e92c3b32155788bd83989e6eab3afceint, 0x28d848cc37aad6b1c97a538b67ef037be60b2916int);
    let e = lemma_leaves_square(b, e, 0x28d848cc37aad6b1c97a538b67ef037be60b2916int, m, 0xb64bb35c2c3e0866e25fb9916c6b18b72951185int, 0x61b2186caab98d7d7be3f51ed8aa987e54658737int);
    let e = lemma_leaves_next(b, e, 0x61b2186caab98d7d7be3f51ed8aa987e54658737int, m, 0x58b643b23770661e2db277ef6e378bfa8efe42d8int, 0x200cc452b37ef752204f712cce8ac213fdeea556int);
    let e = lemma_leaves_square(b, e, 0x200cc452b37ef752204f712cce8ac213fdeea556int, m, 0x703ddec1896283359c9bdf2acf2a0ed3efebfdeint, 0x29af21ae71a195d82af39a09a455c463b5c80416int);
    let e = lemma_leaves_next(b, e, 0x29af21ae71a195d82af39a09a455c463b5c80416int, m, 0x25d9db1a3434e1354910ad106b74455b865ea99bint, 0x6a1f7722bf1424ff76bb746d352614d8e88c37b9int);
}

/// A power of an element, step by step.
proof fn power_160_bits_to_150_bits_11()
    ensures
        leaves(0x84f6174410b13b7c641bfb1c0429a24ea8e8db82int, 0x115aacdae40b5700791bc70c6f9c62a0876acnat, 0xa6e63c376fd96029af2accbb609fa7e0093775fint, 0x926d1276e41fae13fdda5f78edb7802a76951509int),
{
    let (b, m) = (0x84f6174410b13b7c641bfb1c0429a24ea8e8db82int, 0x926d1276e41fae13fdda5f78edb7802a76951509int);
    power_160_bits_to_150_bits_10();
    let e = 0x115aacdae40b5700791bc70c6f9c62a087nat;
    let e = lemma_leaves_square(b, e, 0x6a1f7722bf1424ff76bb746d352614d8e88c37b9int, m, 0x4ce9bc6bc5951b03329ed923a74ec2207fe2a040int, 0x707d2f85d5ffa65fe7b626de4e0b515731c2171int);
    let e = lemma_leaves_square(b, e, 0x707d2f85d5ffa65fe7b626de4e0b515731c2171int, m, 0x566ae24a9bbc3834d1cced3f77d49c8355d855int, 0x18a0b6af83f9b468fbf29877ea1d3ec61ad9bfe4int);
    let e = lemma_leaves_next(b, e, 0x18a0b6af83f9b468fbf29877ea1d3ec61ad9bfe4int, m, 0x165cf4eaaaf79eaf2c8b70d74d4c574bd5540f1dint, 0x5da824ad16c3dbbbf609e2aba59b267ce14894c3int);
    let e = lemma_leaves_square(b, e, 0x5da824ad16c3dbbbf609e2aba59b267ce14894c3int, m, 0x3be79552d28ea43b6c4bfb2770f20b7cf4a2fa5fint, 0xf82a861f844d2eedafd9a7e6a15edab4e927432int);
    let e = lemma_leaves_next(b, e, 0xf82a861f844d2eedafd9a7e6a15edab4e927432int, m, 0xe158811df4c4eb6c6f5b52c4850527d37ef620aint, 0x7b4d28fba277d724b0a9071a60ba724506ce830aint);
    let e = lemma_leaves_square(b, e, 0x7b4d28fba277d724b0a9071a60ba724506ce830aint, m, 0x67d429c1df22b9347d5f72e9c284ebb25c4a3680int, 0xf8fc99a21adaba3e4a036faaa7517f79196d1e4int);
    let e = lemma_leaves_square(b, e, 0xf8fc99a21adaba3e4a036faaa7517f79196d1e4int, m, 0x1a76230558e0ae10196b2a81215747aba52041fint, 0x8172bbafd4a0e34dd18c6cab0ca79a44f40262f9int);
    let e = lemma_leaves_next(b, e, 0x8172bbafd4a0e34dd18c6cab0ca79a44f40262f9int, m, 0x758b6c9fbcdf2e0c085c4ea7bcd308d30945106bint, 0x1ee7c6bdf5a8d6a5dd470d2240aab53d2f7beaafint);
    let e = lemma_leaves_square(b, e, 0x1ee7c6bdf5a8d6a5dd470d2240aab53d2f7beaafint, m, 0x685e599945f756abc3f2970863d0cd5e5ff7c35int, 0x4899866e677c750505e5df32f4868884d949acc4int);
    let e = lemma_leaves_square(b, e, 0x4899866e677c750505e5df32f4868884d949acc4int, m, 0x23feea2d17b975da066307f859c33a4f58f515f3int, 0x2b6122b0fbbab64bfd3b3750176efe8040864185int);
    let e = lemma_leaves_next(b, e, 0x2b6122b0fbbab64bfd3b3750176efe8040864185int, m, 0x2763f35409bc1ca38f156c9c60d863a5bee27f81int, 0x34eef8bf46de469c3289a0ee28f5a4445040fc01int);
    let e = lemma_leaves_square(b, e, 0x34eef8bf46de469c3289a0ee28f5a4445040fc01int, m, 0x1322b80d198ccda4badde7cafd037fdba0c3cff1int, 0xf7dd14ba51f50a3c0bc351c88ee243c45be388int);
    let e = lemma_leaves_square(b, e, 0xf7dd14ba51f50a3c0bc351c88ee243c45be388int, m, 0x1a3929579e89a53cf41d932e3b84561901908int, 0x79666ca0c26e5dfb3ed0d1c578f8936a4b23eef8int);
    let e = lemma_leaves_next(b, e, 0x79666ca0c26e5dfb3ed0d1c578f8936a4b23eef8int, m, 0x6e3c92ce8addf3b35788b47e9a5ccf02d8422a76int, 0x5e717b4ee5578dc772c5014336d95eed13f055caint);
    let e = lemma_leaves_square(b, e, 0x5e717b4ee5578dc772c5014336d95eed13f055caint, m, 0x3cea3967270adbae08685cdb4e0ee79de73ea89fint, 0x84bd0699a4bf8322f66dc60f83bc02943febcacdint);
    let e = lemma_leaves_next(b, e, 0x84bd0699a4bf8322f66dc60f83bc02943febcacdint, m, 0x788843537d7502e9e8f3079413c91bb96e7cc1cfint, 0x66892f91b32341966dc147a93e7205b6283e8fd3int);
    let e = lemma_leaves_square(b, e, 0x66892f91b32341966dc147a93e7205b6283e8fd3int, m, 0x47cd2d621dd34f75936a9c221f9050a1e8babfa7int, 0x159d61711fa013eda85b461250c7c208e484f80aint);
    let e = lemma_leaves_square(b, e, 0x159d61711fa013eda85b461250c7c208e484f80aint, m, 0x330d02d034e29c4a4f73583a04c11569ca90f1dint, 0xa6e63c376fd96029af2accbb609fa7e0093775fint);
}

/// A power of an element, step by step.
proof fn power_160_bits_to_150_bits_12()
    ensures
        leaves(0x84f6174410b13b7c641bfb1c0429a24ea8e8db82int, 0x22b559b5c816ae00f2378e18df38c5410ed597nat, 0x1int, 0x926d1276e41fae13fdda5f78edb7802a76951509int),
{
    let (b, m) = (0x84f6174410b13b7c641bfb1c0429a24ea8e8db82int, 0x926d1276e41fae13fdda5f78edb7802a76951509int);
    power_160_bits_to_150_bits_11();
    let e = 0x115aacdae40b5700791bc70c6f9c62a0876acnat;
    let e = lemma_leaves_square(b, e, 0xa6e63c376fd96029af2accbb609fa7e0093775fint, m, 0xbe3c37c09468036a8eac05125d8b213d85bd1fint, 0x8ac1e222fa0b0bafb5395e3695ebc925cf81442aint);
    let e = lemma_leaves_next(b, e, 0x8ac1e222fa0b0bafb5395e3695ebc925cf81442aint, m, 0x7dff6de65df0f723ea0a7327a81e0f6c3b5d6afaint, 0x35ce0d92b6feb12125acbf9def4b23050b73468aint);
    let e = lemma_leaves_square(b, e, 0x35ce0d92b6feb12125acbf9def4b23050b73468aint, m, 0x13c555f55f95c89c8a67ec45cfe15111ad07bedeint, 0x8601711f4e2bbf9f9be50a04a025b4a32c47d696int);
    let e = lemma_leaves_square(b, e, 0x8601711f4e2bbf9f9be50a04a025b4a32c47d696int, m, 0x7aa385324c7f8e2f069a9e84469101717ebe58ccint, 0x8eef6dd48b2e41279e846c91231c895d825d44b8int);
    let e = lemma_leaves_next(b, e, 0x8eef6dd48b2e41279e846c91231c895d825d44b8int, m, 0x81ca9fac13b6a6d6fa25d0b317510f07265b61b4int, 0x22eb4c53c092d37cd912820dbd3ae28a55e81a1cint);
    let e = lemma_leaves_square(b, e, 0x22eb4c53c092d37cd912820dbd3ae28a55e81a1cint, m, 0x853cf5be90b4de5dcac2441c5d760a3cd845b58int, 0x70f1ca7e9208fe94e8a37f7eacfd17c41e0c44f8int);
    let e = lemma_leaves_next(b, e, 0x70f1ca7e9208fe94e8a37f7eacfd17c41e0c44f8int, m, 0x668efdcb24f0e8e869935cb309c8a5ac9b2a76b2int, 0x6a22a91106d82924f6bf7d635238bbcff02667aeint);
    let e = lemma_leaves_square(b, e, 0x6a22a91106d82924f6bf7d635238bbcff02667aeint, m, 0x4cee5e169c5cdc752c46ba90a228611809f23440int, 0x56fd4787d4d2aabec7f47793e69845610986404int);
    let e = lemma_leaves_next(b, e, 0x56fd4787d4d2aabec7f47793e69845610986404int, m, 0x4efd7bb3b1731d1498f5d614acc9b5ee6f3468fint, 0x1int);
}

/// A prime of 160 bits.
pub proof fn lemma_prime_160_bits()
    ensures
        prime(0x926d1276e41fae13fdda5f78edb7802a76951509int),
{
    lemma_prime_150_bits();
    power_160_bits_to_150_bits_12();
    lemma_of_prime_order(
        0x84f6174410b13b7c641bfb1c0429a24ea8e8db82int,
        0x22b559b5c816ae00f2378e18df38c5410ed597int,
        0x915a3c97e1f064769fa3c1c13714e947fde75b95int,
        0x926d1276e41fae13fdda5f78edb7802a76951509int,
        0x83fc873b067687e40e33c93e9edf628ae4e9ad74int,
    );
    lemma_prime_by_one(
        0x926d1276e41fae13fdda5f78edb7802a76951509int,
        0x84f6174410b13b7c641bfb1c0429a24ea8e8db82int,
        0x22b559b5c816ae00f2378e18df38c5410ed597int,
        0x915a3c97e1f064769fa3c1c13714e947fde75b95int,
    );
}

/// A power of an element, step by step.
proof fn power_256_bits_to_160_bits_0()
    ensures
        leaves(0x6e2de1e253b630ab90fb6c14c9913e3f79353ced1be9c68ed42e7ee18b96074eint, 0x124dnat, 0xa2af4fd7330a952d6c745ae4208e4c44776cb1ad8856c122d19b29594b5c3845int, 0xffffffff00000001000000000000000000000000ffffffffffffffffffffffffint),
{
    let (b, m) = (0x6e2de1e253b630ab90fb6c14c9913e3f79353ced1be9c68ed42e7ee18b96074eint, 0xffffffff00000001000000000000000000000000ffffffffffffffffffffffffint);
    lemma_leaves_first(b, m);
    let e = 1nat;
    let e = lemma_leaves_square(b, e, 0x6e2de1e253b630ab90fb6c14c9913e3f79353ced1be9c68ed42e7ee18b96074eint, m, 0x2f6b7657e03d15766855d162d1bdc06c7e8890002f3275d2fcbada906a78c38fint, 0xcddc511f363c3bb8116b46458a69d7a0274a503b440caa7d25c8bd87ae161f53int);
    let e = lemma_leaves_square(b, e, 0xcddc511f363c3bb8116b46458a69d7a0274a503b440caa7d25c8bd87ae161f53int, m, 0xa58a978829c10ad340589b2f0bcdc85a2a8151ab47c48abb8f47d046a6ff34fcint, 0xf79fde8fbf89aae855a0596c22b0b85f5bcd6d8f9b65645e3aef7c4ee11869e5int);
    let e = lemma_leaves_square(b, e, 0xf79fde8fbf89aae855a0596c22b0b85f5bcd6d8f9b65645e3aef7c4ee11869e5int, m, 0xef85e3508b2f19088d059a9693e05f77a932fb61213d936da095c7a018306358int, 0xb9fff8a3207a46dfb0d53346f1588a3844976383743c1d88b58e13a4a8ee0a31int);
    let e = lemma_leaves_next(b, e, 0xb9fff8a3207a46dfb0d53346f1588a3844976383743c1d88b58e13a4a8ee0a31int, m, 0x500d52f38701cf683bf0692edc452fe1fd772d14e4a85dc5fcc67f8fa13c331fint, 0x2424054e17717adb6c1cdaedeb038be8a41730d82100f79025d74a6d2fc0a50dint);
    let e = lemma_leaves_square(b, e, 0x2424054e17717adb6c1cdaedeb038be8a41730d82100f79025d74a6d2fc0a50dint, m, 0x51a268f79c4cdc472e23335965bb1e0f2a45268eb22d8bd8b12855b2f6333d7int, 0x879bb72ae39322e9f2c313257d2b5fb5164c8c9c6532d0d59b48e3fff34cf680int);
    let e = lemma_leaves_square(b, e, 0x879bb72ae39322e9f2c313257d2b5fb5164c8c9c6532d0d59b48e3fff34cf680int, m, 0x47d599e6d4d8b57164d90447d8c13bd2833321b7d7f521b6535896987e9fb5e3int, 0xdc4c84ad702a12f7d6776a29a083b34a51ee48870c3f49e1130ddcb2c7f9f5e3int);
    let e = lemma_leaves_square(b, e, 0xdc4c84ad702a12f7d6776a29a083b34a51ee48870c3f49e1130ddcb2c7f9f5e3int, m, 0xbd939ae9e219d5aa8ddcdfc5599fc46b5abe89e87e243ac22bd3b6a1df833417int, 0xe8bd22ca9a7a6b714b7cd405ae19ceb3a1a52f229197183b29505ea509457b60int);
    let e = lemma_leaves_next(b, e, 0xe8bd22ca9a7a6b714b7cd405ae19ceb3a1a52f229197183b29505ea509457b60int, m, 0x642afb8e8ed07add914b8a281905217eea7aa264be2b19d629fb7425b19eb7deint, 0xcca2c3e3e84998a223ab8395c3faa652766f97b865db3ffe07d5a5c2d569ef1eint);
    let e = lemma_leaves_square(b, e, 0xcca2c3e3e84998a223ab8395c3faa652766f97b865db3ffe07d5a5c2d569ef1eint, m, 0xa393cfb0602016dd366bf1a6e4f1089e58763a3ec46ce9c4b1e6859aaca977a5int, 0x4946130ffc61cddf804f4e56aec674a27bb4d0ae18dfd60af2870ed09e9e7f29int);
    let e = lemma_leaves_square(b, e, 0x4946130ffc61cddf804f4e56aec674a27bb4d0ae18dfd60af2870ed09e9e7f29int, m, 0x14f90a0da1123769aa569352ccd040035a2c19d7f36ac863b455aa1ee9508f8aint, 0x995ff5dd604f3f3d47db2b4b08b5583a68e2a6c39a99b286cf52cfd6bb16441bint);
    let e = lemma_leaves_square(b, e, 0x995ff5dd604f3f3d47db2b4b08b5583a68e2a6c39a99b286cf52cfd6bb16441bint, m, 0x5be3d7db5f71860a4f06ffe6604b03e7b2bb28f3d82262d711fb991ddf3ae954int, 0x208e0f34995d95423846c2f121518fc58acca72d9f480e2db15ea9b117fd442dint);
    let e = lemma_leaves_next(b, e, 0x208e0f34995d95423846c2f121518fc58acca72d9f480e2db15ea9b117fd442dint, m, 0xe02e03af793ed28907c9772fe390fb2c0a439ef5329d838c50e087fd2ea1b9dint, 0xdc738799e5a80a6e1026d7c1de48f0f1108146a39029b6fb3d91381470501c53int);
    let e = lemma_leaves_square(b, e, 0xdc738799e5a80a6e1026d7c1de48f0f1108146a39029b6fb3d91381470501c53int, m, 0xbdd6c5345ca798d5b558b6eb46b00979f0fc474bd2d4ca9cc61eb59a43438479int, 0x46eb558697c152de4da7a455b7f55d96a915e0ebbbbeb4633453a46c9a45c762int);
    let e = lemma_leaves_next(b, e, 0x46eb558697c152de4da7a455b7f55d96a915e0ebbbbeb4633453a46c9a45c762int, m, 0x1e85d4b18581250078367f58c5c723f2e13e0ba387242990561641202e5c3a0cint, 0x4a77d791d7232e39b7d138dd4a507a02a39eea337e8ac6e6cb8a13b6217ea7e8int);
    let e = lemma_leaves_square(b, e, 0x4a77d791d7232e39b7d138dd4a507a02a39eea337e8ac6e6cb8a13b6217ea7e8int, m, 0x15a980ba8526249b49b5e9e1d8a9fbeeaf07d77e9e94f02e4fa449e8dc0fb7f7int, 0xc756eca9e9297003f1c395e1dc4812cbe6855c9d3b050a71b7295dbc62903a37int);
    let e = lemma_leaves_square(b, e, 0xc756eca9e9297003f1c395e1dc4812cbe6855c9d3b050a71b7295dbc62903a37int, m, 0x9b384174a0a90c1b7d8eeca6c60f2ba07b13f3c45baf9f63a3c1e7bc800609d0int, 0xebfd0a4a0d0ec47f95aea735206a9322caa0d096c1497f9c9f741c58272301a1int);
    let e = lemma_leaves_next(b, e, 0xebfd0a4a0d0ec47f95aea735206a9322caa0d096c1497f9c9f741c58272301a1int, m, 0x659106210ecad21a7430b159789f9b596358aa982ea45df2570d80850a505237int, 0xa2af4fd7330a952d6c745ae4208e4c44776cb1ad8856c122d19b29594b5c3845int);
}

/// A power of an element, step by step.
proof fn power_256_bits_to_160_bits_1()
    ensures
        leaves(0x6e2de1e253b630ab90fb6c14c9913e3f79353ced1be9c68ed42e7ee18b96074eint, 0x124da24nat, 0xbc835037487eaa230f7bdc9923697913f8b312002f78ab1860f5afca571f5878int, 0xffffffff00000001000000000000000000000000ffffffffffffffffffffffffint),
{
    let (b, m) = (0x6e2de1e253b630ab90fb6c14c9913e3f79353ced1be9c68ed42e7ee18b96074eint, 0xffffffff00000001000000000000000000000000ffffffffffffffffffffffffint);
    power_256_bits_to_160_bits_0();
    let e = 0x124dnat;
    let e = lemma_leaves_square(b, e, 0xa2af4fd7330a952d6c745ae4208e4c44776cb1ad8856c122d19b29594b5c3845int, m, 0x6762591b051a0cc75d1b10e56853d4143983188bf20e93e5da37c6d83596b773int, 0x2e5da62d398e98793b7975551b28cddff9d6cd02079d1f0fae1a2b03218cfa0cint);
    let e = lemma_leaves_next(b, e, 0x2e5da62d398e98793b7975551b28cddff9d6cd02079d1f0fae1a2b03218cfa0cint, m, 0x13f48cc70586c0246a1dd91c5f86914fe360693a30ca3ff74265ecdd5c69498cint, 0xacead5859071a32c4d5df713641d54fa2b7e5fb53c437683aabafea7773bcd34int);
    let e = lemma_leaves_square(b, e, 0xacead5859071a32c4d5df713641d54fa2b7e5fb53c437683aabafea7773bcd34int, m, 0x74cc6656f928b164da6b4da1ac2d7fe5737ec8fca63fe7a3cd8ec45981faaebaint, 0x8e8005e3af3431299cbf16c138022892c11d33650add48727fe054f0146f014aint);
    let e = lemma_leaves_square(b, e, 0x8e8005e3af3431299cbf16c138022892c11d33650add48727fe054f0146f014aint, m, 0x4f52468ec98210a20613bc2eb057dd1399a1baf60b5291ca5d8fa8ba2e1d60c6int, 0x277d7da423ce6211a92a99f593266875ff1d881a545abcb35ac2bcfdc4b0a2aint);
    let e = lemma_leaves_next(b, e, 0x277d7da423ce6211a92a99f593266875ff1d881a545abcb35ac2bcfdc4b0a2aint, m, 0x10feffe3e35bf2242f98876d642ecc8b2b5924d3349c891e3bb645ac3b6e6c8int, 0x915341fb411034e524984ea48a0dfeeef468d1d04acd46efa44bda1cb2772594int);
    let e = lemma_leaves_square(b, e, 0x915341fb411034e524984ea48a0dfeeef468d1d04acd46efa44bda1cb2772594int, m, 0x527f6bd2cc2185e33ad9afb7f08f1d6648c5006a2c9237bcf8c195f83f412a08int, 0x89111d07d11cd7e2efead86c984b6ad8d2397c8a99ed6f350ff3c60e045d4798int);
    let e = lemma_leaves_square(b, e, 0x89111d07d11cd7e2efead86c984b6ad8d2397c8a99ed6f350ff3c60e045d4798int, m, 0x496352378588bcba705ff7dcb39586dd8ac94d78118099b45d451798f0895fb5int, 0x176c1613fbbbc6718d1d70a477c9310966b694db3ffef5a2dcdb1872c8ff09f5int);
    let e = lemma_leaves_square(b, e, 0x176c1613fbbbc6718d1d70a477c9310966b694db3ffef5a2dcdb1872c8ff09f5int, m, 0x224999a3c242e85acaea9fa39006d927830f37cc99e8503a3b5b0115d29e71aint, 0x4c8f69c5f11fdeb89dba5979b3d8093bea95b215cdd207b737b5fbe903a30b93int);
    let e = lemma_leaves_square(b, e, 0x4c8f69c5f11fdeb89dba5979b3d8093bea95b215cdd207b737b5fbe903a30b93int, m, 0x16e57724f4e7bdd670c660d69e4524f7341d31b7e97537edde6c8f9408ee5a5eint, 0xaf2a25f3e42207674cc8996c83fc4f93d556da72c14fc2d8bdd51d4738a650c7int);
    let e = lemma_leaves_next(b, e, 0xaf2a25f3e42207674cc8996c83fc4f93d556da72c14fc2d8bdd51d4738a650c7int, m, 0x4b638146ab216ad3b844f952aafe14b010c78c137d5d92d1d6beb38c6f4f5e59int, 0xae09b3f24bc8108c473d4b812170461c7804d36bf7583a754aa902029fcb6bfbint);
    let e = lemma_leaves_square(b, e, 0xae09b3f24bc8108c473d4b812170461c7804d36bf7583a754aa902029fcb6bfbint, m, 0x765130fbfadb36d88310a5b1d636ccbc7a4754ed011519944e505b9ad12f1e75int, 0xd0b7aaac9dfa38d28c33f25f099ddadf9c4fce0e0060288a0c52494d08cce68eint);
    let e = lemma_leaves_square(b, e, 0xd0b7aaac9dfa38d28c33f25f099ddadf9c4fce0e0060288a0c52494d08cce68eint, m, 0xaa2af91e9f7527665353e5cd52e1417adb86173943108ae5a2cc90f348300b37int, 0xbea97a7bf5cfa9402817ae32191605f7a26d5056f5af5b11ccd1b0c86a2381fbint);
    let e = lemma_leaves_square(b, e, 0xbea97a7bf5cfa9402817ae32191605f7a26d5056f5af5b11ccd1b0c86a2381fbint, m, 0x8e00020381252fbbb4422fd399abe2cf63778d2c568bcb5772d0c71fbfa5949eint, 0x37a736700bee4f9b82ffbd9c48bc23aeb938141d5b4f94a68cdc6be0684680b7int);
    let e = lemma_leaves_next(b, e, 0x37a736700bee4f9b82ffbd9c48bc23aeb938141d5b4f94a68cdc6be0684680b7int, m, 0x17f3d2e3f96fad7f5c678fd66bacc69400f8bafe1200c1209f5bbd7184399d42int, 0x84408e080654661d5b71a4010d773258e91e0775ef1b23c6a5c652b4ff73d604int);
    let e = lemma_leaves_square(b, e, 0x84408e080654661d5b71a4010d773258e91e0775ef1b23c6a5c652b4ff73d604int, m, 0x4452a2bfdda9bd86f509089e831d1c1d92a9caf836e5837139f4a244a107e3f4int, 0x4f94b3786b8db5a18c1040363dc69878b40e98cd0370964fdf0c20aa938a9404int);
    let e = lemma_leaves_square(b, e, 0x4f94b3786b8db5a18c1040363dc69878b40e98cd0370964fdf0c20aa938a9404int, m, 0x18bd1d246c2c8e2538b561052e50956ceaf7739cddc847389a7fa979d53ab868int, 0xbc835037487eaa230f7bdc9923697913f8b312002f78ab1860f5afca571f5878int);
}

/// A power of an element, step by step.
proof fn power_256_bits_to_160_bits_2()
    ensures
        leaves(0x6e2de1e253b630ab90fb6c14c9913e3f79353ced1be9c68ed42e7ee18b96074eint, 0x124da24edcnat, 0x37e823a2e574044019fd1a9abd92a2e09b9dcb74c8d72339febf3eae7ccf9622int, 0xffffffff00000001000000000000000000000000ffffffffffffffffffffffffint),
{
    let (b, m) = (0x6e2de1e253b630ab90fb6c14c9913e3f79353ced1be9c68ed42e7ee18b96074eint, 0xffffffff00000001000000000000000000000000ffffffffffffffffffffffffint);
    power_256_bits_to_160_bits_1();
    let e = 0x124da24nat;
    let e = lemma_leaves_square(b, e, 0xbc835037487eaa230f7bdc9923697913f8b312002f78ab1860f5afca571f5878int, m, 0x8ad1212cef01f5f1681b1ca6df3a4dcce248e17cccf23d3aaef70ab48b8a26b3int, 0x6401bde0057f26765f42d8aa5a458b229c51409eb6dbab1e7ab90a0ca72cdef3int);
    let e = lemma_leaves_next(b, e, 0x6401bde0057f26765f42d8aa5a458b229c51409eb6dbab1e7ab90a0ca72cdef3int, m, 0x2b0aac22bfe7876cc81b7ba26f4859284088643818e8606d97209002a3d8208dint, 0x12e5b1dbcbc8b52ed76225e1685307004a8e000cd5cc98d51cccd75b60feb397int);
    let e = lemma_leaves_square(b, e, 0x12e5b1dbcbc8b52ed76225e1685307004a8e000cd5cc98d51cccd75b60feb397int, m, 0x1651b1a98d9962b29b44eaa261b02826cd77a1c053d5b11886d107b6cb398fcint, 0x1bb12710fbb9dc04fc59ecf8b0e1c76c186b78514d046f18b49063ef8a541c0dint);
    let e = lemma_leaves_next(b, e, 0x1bb12710fbb9dc04fc59ecf8b0e1c76c186b78514d046f18b49063ef8a541c0dint, m, 0xbeb155c64d9c0aeccb9a1849b6499e443046585adac5768818a0306382dc7a2int, 0x1ad84f481a0014d03f7e84224e99a64d240058618d72ebe8decbc8bb2930ae98int);
    let e = lemma_leaves_square(b, e, 0x1ad84f481a0014d03f7e84224e99a64d240058618d72ebe8decbc8bb2930ae98int, m, 0x2d0a6e08a521f98a35a919c2632b10cd558e6f4b81046bcb41090e67349ee17int, 0x5dbff9ac4b35894c09b7c765bbc5085378d59af341e085727dadc425135ce857int);
    let e = lemma_leaves_next(b, e, 0x5dbff9ac4b35894c09b7c765bbc5085378d59af341e085727dadc425135ce857int, m, 0x28594abfb086529cf9aab587014aed5c45b157fc8c39d57ae31304573501c745int, 0x7724127d6951a3970ec0b2c8a78eee01425470f049fcd69788439c3905a4f2c7int);
    let e = lemma_leaves_square(b, e, 0x7724127d6951a3970ec0b2c8a78eee01425470f049fcd69788439c3905a4f2c7int, m, 0x37728e4603f7f391bec7c386e893bf768923199d26e4fc4c257b97c56f07852eint, 0x21a4af4fcf0deab03648f938a648283f195da14ec655d8ed351c18272a3c5bdfint);
    let e = lemma_leaves_square(b, e, 0x21a4af4fcf0deab03648f938a648283f195da14ec655d8ed351c18272a3c5bdfint, m, 0x46bdf23ae1cf5704260b9506a52d1fc49028814378341bbbe01d0147d97c691int, 0xd53db63e5c30e0595f27298acdde3de32aea1a78beb945c9635f7a66db1812d2int);
    let e = lemma_leaves_next(b, e, 0xd53db63e5c30e0595f27298acdde3de32aea1a78beb945c9635f7a66db1812d2int, m, 0x5bc6bc4ff3bc67e20a44c94ec92e8f2fcfdc011c623c99b784aab8450e758e4aint, 0xca7e627504f29ff3d561851fd5a1326f48f39586baacced4ac7d2c7e855b0846int);
    let e = lemma_leaves_square(b, e, 0xca7e627504f29ff3d561851fd5a1326f48f39586baacced4ac7d2c7e855b0846int, m, 0xa02bb1c65d09424f45f6e1d05211a0459bf4e49968439e3de95059a8df6f2be3int, 0xac7150bb7cba0894e2f0c1e60c8ca99c9f4919811ce64490e39845887d779f07int);
    let e = lemma_leaves_next(b, e, 0xac7150bb7cba0894e2f0c1e60c8ca99c9f4919811ce64490e39845887d779f07int, m, 0x4a3798c41725f9cfe59c528fae3a8d804ba208a233ffbbfbc636cb9111ccf353int, 0x36438d9c8dd2a52f131fa8a00314994af7f4bac63fb6251da846652c8cb29875int);
    let e = lemma_leaves_square(b, e, 0x36438d9c8dd2a52f131fa8a00314994af7f4bac63fb6251da846652c8cb29875int, m, 0xb809191859d7f7afe132f58b2bbbab9c4cea11bfed00fd367c8ce506f67b8fcint, 0x158273403d49ef2f1fa172df7d6c7e0694a2faffd0b7f4dfeec95be0c4e6de75int);
    let e = lemma_leaves_square(b, e, 0x158273403d49ef2f1fa172df7d6c7e0694a2faffd0b7f4dfeec95be0c4e6de75int, m, 0x1cea961ccfdd0e592c403a6b6af9c9a815f6e50e0b37f1415c6ede364f4977fint, 0xd0b428dad5914bae87d1207e2294b43772e8c19e844c206a431fbd7b087fb8f8int);
    let e = lemma_leaves_next(b, e, 0xd0b428dad5914bae87d1207e2294b43772e8c19e844c206a431fbd7b087fb8f8int, m, 0x59d2d1606b4222564046d4ead6ea5b40f193b71ab51d99e9a93a9829d1e5dbb6int, 0xa51ab19a5a81de748c16854c8bc97a1f1e1f01bb58d5bf9cc0a4a71ef02eff46int);
    let e = lemma_leaves_square(b, e, 0xa51ab19a5a81de748c16854c8bc97a1f1e1f01bb58d5bf9cc0a4a71ef02eff46int, m, 0x6a7b6bb9f1b805158d5a75fef010231990d2773b28ef744f4e364e0887e2703aint, 0x55ff48c33a45a85f9be186701acf00a2f02abda9e2a0a1d9dd4f9db48396f75eint);
    let e = lemma_leaves_next(b, e, 0x55ff48c33a45a85f9be186701acf00a2f02abda9e2a0a1d9dd4f9db48396f75eint, m, 0x25031b0538cf129bf29e3962e171f375719aafc9016fdb146c267df452cffdeaint, 0x94de782355901fc6ad2c89bba0d4bfdf585e2390e93f1054b3443af086a6ee8eint);
    let e = lemma_leaves_square(b, e, 0x94de782355901fc6ad2c89bba0d4bfdf585e2390e93f1054b3443af086a6ee8eint, m, 0x5691fc3dc72a2c09e5340136bf2c71cbf8d856be40b0f3c948fe1d1a9e8b9dfdint, 0xf883b636ff47b35f0f68c5b7f34caf64ccc74c321b9a1a42fc58edf184fff4c1int);
    let e = lemma_leaves_next(b, e, 0xf883b636ff47b35f0f68c5b7f34caf64ccc74c321b9a1a42fc58edf184fff4c1int, m, 0x6af522ba8d0195498314feaf16ae63bc7cd0ffe20a8c2631c4432f087b1270f5int, 0x80334f77ab904f3f6b597eb98a469e87cec4aee39b3c074652b34cc134d64ac3int);
    let e = lemma_leaves_square(b, e, 0x80334f77ab904f3f6b597eb98a469e87cec4aee39b3c074652b34cc134d64ac3int, m, 0x403359c0ae1d18537094ef63cd60698327e8785de3fd37490940a9767201fe0cint, 0xb05023910c224ab5413888d39192a77719ac4c6be1b938ae745aed3cbddb4e95int);
    let e = lemma_leaves_square(b, e, 0xb05023910c224ab5413888d39192a77719ac4c6be1b938ae745aed3cbddb4e95int, m, 0x796e49fe29b601a5bb17a3e2414b07841d5e96498c5f5d521ae0f8eeefc27369int, 0x37e823a2e574044019fd1a9abd92a2e09b9dcb74c8d72339febf3eae7ccf9622int);
}

/// A power of an element, step by step.
proof fn power_256_bits_to_160_bits_3()
    ensures
        leaves(0x6e2de1e253b630ab90fb6c14c9913e3f79353ced1be9c68ed42e7ee18b96074eint, 0x124da24edc83fnat, 0x9d69874fb5ccca2ccc1bd3d720731083b928ac63e539968d053982c3a31247e1int, 0xffffffff00000001000000000000000000000000ffffffffffffffffffffffffint),
{
    let (b, m) = (0x6e2de1e253b630ab90fb6c14c9913e3f79353ced1be9c68ed42e7ee18b96074eint, 0xffffffff00000001000000000000000000000000ffffffffffffffffffffffffint);
    power_256_bits_to_160_bits_2();
    let e = 0x124da24edcnat;
    let e = lemma_leaves_square(b, e, 0x37e823a2e574044019fd1a9abd92a2e09b9dcb74c8d72339febf3eae7ccf9622int, m, 0xc3591d0a7034050c7cf371978fcfe104eaee23a76cf25ff903f7ab280850b92int, 0x7e46d6e51ab6d55c47cbd0aba6fee55319ff7fd0f2cc743382bdcaaf938ce816int);
    let e = lemma_leaves_next(b, e, 0x7e46d6e51ab6d55c47cbd0aba6fee55319ff7fd0f2cc743382bdcaaf938ce816int, m, 0x3659123654cd3cce851f768094dfe00219b8a104a07e894a37574a6c065b370fint, 0x207db5725ffc0e7944f7a9b0f3f5810f452fe454c62184794aba9eddc48687c3int);
    let e = lemma_leaves_square(b, e, 0x207db5725ffc0e7944f7a9b0f3f5810f452fe454c62184794aba9eddc48687c3int, m, 0x41fab174e6b59afcae85d52939110bdd6b78d888c07a5b3b01280c573ed039eint, 0x647682e233756a0af1116b35ef90356423bd0ac525f0ecb6aa27e20874104227int);
    let e = lemma_leaves_square(b, e, 0x647682e233756a0af1116b35ef90356423bd0ac525f0ecb6aa27e20874104227int, m, 0x276ccd1dcb127c56176bdd4b0ed950e37e69561f229c3795725fbcd24dd3eee6int, 0xe2f8935d905b8ee0c26ec9cd043a2e39a508d47531e110d90b1783dfbcc10d7int);
    let e = lemma_leaves_square(b, e, 0xe2f8935d905b8ee0c26ec9cd043a2e39a508d47531e110d90b1783dfbcc10d7int, m, 0xc93bd58fd639c53411c552ad72bf847275587a0b42519a6b41cff921d20f16int, 0x3e3fdfe8914536239fee579f8aa891e2ee55616f4e1283a2db43321f9395a3a7int);
    let e = lemma_leaves_square(b, e, 0x3e3fdfe8914536239fee579f8aa891e2ee55616f4e1283a2db43321f9395a3a7int, m, 0xf230064adcf070cb9dfdba6263ac123c8503c3e22e240aa2a91465254e1bad7int, 0xb46526c4e2493976800f1af7fe491a8f52a0b5652617e9e5153b562e07e5d1c8int);
    let e = lemma_leaves_square(b, e, 0xb46526c4e2493976800f1af7fe491a8f52a0b5652617e9e5153b562e07e5d1c8int, m, 0x7f1e667cfa8ef7ab7c3b64e626aa7b9a85f200e4d283fea533077f2871dc13b0int, 0x32a0c030fdc68d4374332c68b78266edcb7aad36c101ac63f4ffa2d25d943ff0int);
    let e = lemma_leaves_square(b, e, 0x32a0c030fdc68d4374332c68b78266edcb7aad36c101ac63f4ffa2d25d943ff0int, m, 0xa033003faab7d6cd849bf87c3f8948ef6db0505f1eec3d32f811ab1564b1158int, 0x14cd8cb0c6d84d136bf7d1e13ec443ea6bfe7a98b16aa9f959faccbfb3c31258int);
    let e = lemma_leaves_next(b, e, 0x14cd8cb0c6d84d136bf7d1e13ec443ea6bfe7a98b16aa9f959faccbfb3c31258int, m, 0x8f40cf0c662f79c1a8b2a0a63ad70a765062077f63a373760792f7a0a40cc3fint, 0x7f2a2cbe2d4643ea18cbc4862f6823c46b3657c58d561ccbe2b57e67acc0cb0fint);
    let e = lemma_leaves_square(b, e, 0x7f2a2cbe2d4643ea18cbc4862f6823c46b3657c58d561ccbe2b57e67acc0cb0fint, m, 0x3f2adf57a64f5e9f5835de4dadbeca63c511841ab0d24196fc31eeaffa313f7fint, 0x9454d787a0950c520fc0726aa7d46de3142786f9d51c7a90db01bacf59c20a60int);
    let e = lemma_leaves_next(b, e, 0x9454d787a0950c520fc0726aa7d46de3142786f9d51c7a90db01bacf59c20a60int, m, 0x3fd70a681e83dc2a93da91bf78a08f3dbc13d12fec1a1958dff08764dcb957f6int, 0xd9e21da083f8b4c4272f7a9c7dfa4d5f283d38b2701bc0b73b46fbab8612136int);
    let e = lemma_leaves_square(b, e, 0xd9e21da083f8b4c4272f7a9c7dfa4d5f283d38b2701bc0b73b46fbab8612136int, m, 0xb9711df32c038611bb34f68191fdde9476ad957111edd93aaf88526f865423int, 0x6c395732953106aeebae2974e6d14367df7eb60b99c18ff1f5c63623ec14b87int);
    let e = lemma_leaves_next(b, e, 0x6c395732953106aeebae2974e6d14367df7eb60b99c18ff1f5c63623ec14b87int, m, 0x2e94090a52395febf217799d838ca5c74ec4ef64ed012b940962bec268efccbint, 0x930c1a0f4bb0082ec7dd8fa41c29ef9c24db0e39d7d090ce9269b07e1c9eb0edint);
    let e = lemma_leaves_square(b, e, 0x930c1a0f4bb0082ec7dd8fa41c29ef9c24db0e39d7d090ce9269b07e1c9eb0edint, m, 0x5476e680597944b03998a1d6e6afed103a6f7fbfbb2f523369a71b0f6becf195int, 0x71db2f36231edcfbc4dc8595fe697301c368f6dd0284d11542c03d6e22bfacfeint);
    let e = lemma_leaves_next(b, e, 0x71db2f36231edcfbc4dc8595fe697301c368f6dd0284d11542c03d6e22bfacfeint, m, 0x310096470dd5601889c34a227617fdb23bfe5138a9515cc336faf8cec2be9954int, 0x1524a9e613146e82eb1314ad7561ccbd7e37c66b6843b98de9e231cbddb440b8int);
    let e = lemma_leaves_square(b, e, 0x1524a9e613146e82eb1314ad7561ccbd7e37c66b6843b98de9e231cbddb440b8int, m, 0x1bf091ffa5754f7cc070240925f3e1075efed4ba9dfc19ff5d658aaf770a43dint, 0xcbdb791efcd38f64cd0392bdec08032cb0038b4fd77e3999875c2323ba8d287dint);
    let e = lemma_leaves_next(b, e, 0xcbdb791efcd38f64cd0392bdec08032cb0038b4fd77e3999875c2323ba8d287dint, m, 0x57bcd78012b096ed515338ab474108aa93d3e25c308e407891f3b94ee97de229int, 0xaaf06cb1fc86aac9a57feaca9518a476bc83d471519c5d778caa77da34d9a33fint);
    let e = lemma_leaves_square(b, e, 0xaaf06cb1fc86aac9a57feaca9518a476bc83d471519c5d778caa77da34d9a33fint, m, 0x72243228d167324d3492e960b0e320705776ddf0adf122a1dcce01b8b7a67a2bint, 0xe8a1dbdf5dc41f05ebff118bb678ad1a6f09d7cdd3637fedf7d1be5c788dc3acint);
    let e = lemma_leaves_next(b, e, 0xe8a1dbdf5dc41f05ebff118bb678ad1a6f09d7cdd3637fedf7d1be5c788dc3acint, m, 0x641f3e31f1e2752fb0e767e0297233db400f54b806688f7bb3a9bccffcbef579int, 0x9d69874fb5ccca2ccc1bd3d720731083b928ac63e539968d053982c3a31247e1int);
}

/// A power of an element, step by step.
proof fn power_256_bits_to_160_bits_4()
    ensures
        leaves(0x6e2de1e253b630ab90fb6c14c9913e3f79353ced1be9c68ed42e7ee18b96074eint, 0x124da24edc83f5c2nat, 0xe7b476ebd980d21b0c72ed1286337d082f185152dada0285220fa4a95a890641int, 0xffffffff00000001000000000000000000000000ffffffffffffffffffffffffint),
{
    let (b, m) = (0x6e2de1e253b630ab90fb6c14c9913e3f79353ced1be9c68ed42e7ee18b96074eint, 0xffffffff00000001000000000000000000000000ffffffffffffffffffffffffint);
    power_256_bits_to_160_bits_3();
    let e = 0x124da24edc83fnat;
    let e = lemma_leaves_square(b, e, 0x9d69874fb5ccca2ccc1bd3d720731083b928ac63e539968d053982c3a31247e1int, m, 0x60ca9b786cb0180089ba4dd34398f951c2d2ab6dca3a3ce4be0157faf4139ac0int, 0x38942b114fc94eeed19bd538272381038b58ee128713b2d1f0eda597a9e62e81int);
    let e = lemma_leaves_square(b, e, 0x38942b114fc94eeed19bd538272381038b58ee128713b2d1f0eda597a9e62e81int, m, 0xc81289972ac4dde782041e2c08da6f0fb2f9bf6b4210c7442064ecf612104cbint, 0x16192940782bee1c8a7e88943a538645d656b78690476556d31f2d5b4b5fa1ccint);
    let e = lemma_leaves_next(b, e, 0x16192940782bee1c8a7e88943a538645d656b78690476556d31f2d5b4b5fa1ccint, m, 0x982c5a5a42cbcae2e1a261ce08c8af598473d2a4761fc347c570da19fd9bf77int, 0xea069b51b6b676a169b72877fc64ca3a8c3901c9ead1eefe22d711b0c5f19f9fint);
    let e = lemma_leaves_square(b, e, 0xea069b51b6b676a169b72877fc64ca3a8c3901c9ead1eefe22d711b0c5f19f9fint, m, 0xd5f0141dde0642dfc27074363b272085e349c9ca47ff07a2f959ac35b84597d0int, 0xbe431b8e50607ed14ba7516e4e41de40f968a435529b09c22ee8088e5b2a7c91int);
    let e = lemma_leaves_square(b, e, 0xbe431b8e50607ed14ba7516e4e41de40f968a435529b09c22ee8088e5b2a7c91int, m, 0x8d67ae7f3c2c51515ba7e30ddf41eaf757230ba4ac573c53968f2262c1124045int, 0x66c4d94ba1a861ff00e8d5eefb3be2b90cbaf4373c25f0b964c19edaf3430a66int);
    let e = lemma_leaves_next(b, e, 0x66c4d94ba1a861ff00e8d5eefb3be2b90cbaf4373c25f0b964c19edaf3430a66int, m, 0x2c3b00a6bc5b0924dabc6232bd68849b52534f82acf6ebae1bb916446c607635int, 0x155960672ea75a156f8a5c896fe554e2e60259bb79a9c60733cdc134d9da6b49int);
    let e = lemma_leaves_square(b, e, 0x155960672ea75a156f8a5c896fe554e2e60259bb79a9c60733cdc134d9da6b49int, m, 0x1c7c9051b7b3abd57a2d5c90290e6f0da865c90d057ea94dc3dc53aee82eeacint, 0x8ea6b187767641e2b12bf621f9db641e1d2afa934fe35e86550b711f95cd097dint);
    let e = lemma_leaves_next(b, e, 0x8ea6b187767641e2b12bf621f9db641e1d2afa934fe35e86550b711f95cd097dint, m, 0x3d65317446f22e7187f7d5f9f9223877e1997f0768de008c77262a09fd431558int, 0xe0f72ba0f84ab2b434915a85a13fcc3f36363aaea5eb2574ebe975e9ab3c646eint);
    let e = lemma_leaves_square(b, e, 0xe0f72ba0f84ab2b434915a85a13fcc3f36363aaea5eb2574ebe975e9ab3c646eint, m, 0xc5b17affb042cc7f8485db59d93103f96aa28b41a2d81958a054fa915185f7ebint, 0xefa183501ee1288181e3049cdaa3bcd6d5ea05da4e98e927bed61337807c172fint);
    let e = lemma_leaves_next(b, e, 0xefa183501ee1288181e3049cdaa3bcd6d5ea05da4e98e927bed61337807c172fint, m, 0x67225941b8d7c61173d946182cca43056566b5ce1edc34f3f5a0938f0a7e877cint, 0x26067a24fd12823013ad5ae5aa425368dd02297a4141a7bc71951e96af79e0ceint);
    let e = lemma_leaves_square(b, e, 0x26067a24fd12823013ad5ae5aa425368dd02297a4141a7bc71951e96af79e0ceint, m, 0x5a5ec6cf4ca8e7f1ab50c1ef27ae76c2a1dd5f9ee5b216f1487ed3b026d7debint, 0x766508d308aa8b1c609fbe03f37e9b9a42081a94173f9a274c1f8202ee92a3afint);
    let e = lemma_leaves_square(b, e, 0x766508d308aa8b1c609fbe03f37e9b9a42081a94173f9a274c1f8202ee92a3afint, m, 0x36c14c02b991395462659fa952f0dd8495ca50837fa33e32ad653200eec14bacint, 0x55322f7295f5a7afb65ce67cf45463f675bd75c51bc57c8dc0a479156f059d4dint);
    let e = lemma_leaves_square(b, e, 0x55322f7295f5a7afb65ce67cf45463f675bd75c51bc57c8dc0a479156f059d4dint, m, 0x1c5a5d58c57d5902f313a764a676dd61aaeecfe0c0dd55dce6c489a4b579c6dcint, 0x5b1b8cd13c461e47e54b37218306040d976cd5ce57352492a73100cf01235005int);
    let e = lemma_leaves_square(b, e, 0x5b1b8cd13c461e47e54b37218306040d976cd5ce57352492a73100cf01235005int, m, 0x206c9913e2deae556c6cf1e5ed446ea60360d8be0562fec21522bb2879d7cc67int, 0xa7e5c9a7391a2a54de64697746407b1b7d8abc442af8d5c414296ebd7e38ec80int);
    let e = lemma_leaves_square(b, e, 0xa7e5c9a7391a2a54de64697746407b1b7d8abc442af8d5c414296ebd7e38ec80int, m, 0x6e1d9b5afea1ec4ba9da5ba93828fdbec3efaa78770024356d17f71f40f0edceint, 0x86d9bb3dcdea0ab15b2b201e9593445ab67702c4f40a0021b79f4195936d2dceint);
    let e = lemma_leaves_next(b, e, 0x86d9bb3dcdea0ab15b2b201e9593445ab67702c4f40a0021b79f4195936d2dceint, m, 0x3a09b9b74842ab20fb33a9fa8f7ab3849b354acfbb0dc243a6e82ca3314f7a02int, 0x82802805119348987a5f9f7c23c9016e99538142cd41af52bb6e8f23c98810c6int);
    let e = lemma_leaves_square(b, e, 0x82802805119348987a5f9f7c23c9016e99538142cd41af52bb6e8f23c98810c6int, m, 0x428668cd73b327685d959cc7d7e4c6846e02350f7cfd9616b74ee7dc9b0fad1dint, 0xe7b476ebd980d21b0c72ed1286337d082f185152dada0285220fa4a95a890641int);
}

/// A power of an element, step by step.
proof fn power_256_bits_to_160_bits_5()
    ensures
        leaves(0x6e2de1e253b630ab90fb6c14c9913e3f79353ced1be9c68ed42e7ee18b96074eint, 0x124da24edc83f5c27fbnat, 0xaccfaa6090e8a66fd4b9bd183844f8742b4c914758388eee734182fb7d8d947aint, 0xffffffff00000001000000000000000000000000ffffffffffffffffffffffffint),
{
    let (b, m) = (0x6e2de1e253b630ab90fb6c14c9913e3f79353ced1be9c68ed42e7ee18b96074eint, 0xffffffff00000001000000000000000000000000ffffffffffffffffffffffffint);
    power_256_bits_to_160_bits_4();
    let e = 0x124da24edc83f5c2nat;
    let e = lemma_leaves_square(b, e, 0xe7b476ebd980d21b0c72ed1286337d082f185152dada0285220fa4a95a890641int, m, 0xd1b72dd5e725cbf528edd9bb8229b1ab735beab15135b4c2c531eac9f60c57c4int, 0xc83ec017dad27096805096708f889790c3382caa9431a60cfdc216595bc57445int);
    let e = lemma_leaves_square(b, e, 0xc83ec017dad27096805096708f889790c3382caa9431a60cfdc216595bc57445int, m, 0x9ca21b877e3cb3d548bbbaa7b465a6845c38393d696c5af694388d0afa0dd9f3int, 0x48bf9d0e3928795ce8b7c59d953b10bb7b9921abe1e9977a0ef939fa2f0e748cint);
    let e = lemma_leaves_next(b, e, 0x48bf9d0e3928795ce8b7c59d953b10bb7b9921abe1e9977a0ef939fa2f0e748cint, m, 0x1f4f5f5b915adc63af0db9136f57bfa8c25b0f524eafeeb349f6b1a7785a79ecint, 0x8fffa6867af8f8c0fc4276ef7cc2e39a7d95c2bc1bbcf7a0d4d9f5f781f9d094int);
    let e = lemma_leaves_square(b, e, 0x8fffa6867af8f8c0fc4276ef7cc2e39a7d95c2bc1bbcf7a0d4d9f5f781f9d094int, m, 0x50ff9b57ba9d6b5e6e378db851f815c41aa7777343746ccf079daf28e00986b9int, 0x6b762ab9f567b245be3c62b1c3bdd178e8f2fe2b36ca86dbfdcf2cbd71e25c49int);
    let e = lemma_leaves_next(b, e, 0x6b762ab9f567b245be3c62b1c3bdd178e8f2fe2b36ca86dbfdcf2cbd71e25c49int, m, 0x2e4008f37565aded35f336c74a2654ff17eda27edb102625ae1895e3ed728c4eint, 0x1a3401e2c8490ff858d11ad75f211edb3ee42bcd760197f24bc512a086b6a98cint);
    let e = lemma_leaves_square(b, e, 0x1a3401e2c8490ff858d11ad75f211edb3ee42bcd760197f24bc512a086b6a98cint, m, 0x2ae9af2d7825e569394b2c6fdb533b23d4244e4dc7c15fc76cab0210a8e924eint, 0xad6a8a6e58841020b62444bfd6459a5c16035d9328491ebfcb520af51de8b6deint);
    let e = lemma_leaves_next(b, e, 0xad6a8a6e58841020b62444bfd6459a5c16035d9328491ebfcb520af51de8b6deint, m, 0x4aa2dc39fe7f512d321e31cb2ca662a83ec3969875fa578b581d2a2410638093int, 0x2f1a6114f5dc8ded73082c4672be9c5f8aca94ab5bc3231c93b413683a5f4a37int);
    let e = lemma_leaves_square(b, e, 0x2f1a6114f5dc8ded73082c4672be9c5f8aca94ab5bc3231c93b413683a5f4a37int, m, 0x8aab25d980483500df632d03a3211598731442dbf59ad143463c6086e561474int, 0xf689f0c63e9928a15432759ffc6790f938f7a4d9bb5b1b715b7b8dd184abec45int);
    let e = lemma_leaves_next(b, e, 0xf689f0c63e9928a15432759ffc6790f938f7a4d9bb5b1b715b7b8dd184abec45int, m, 0x6a1b753e1edd3fa7955bd13c14f8a6c1c5267d313b70e9ec590d3409d0bda383int, 0xa0bc6a67eac99307424545eb465f9ddb571e73d586db77a2472ad92bd8038389int);
    let e = lemma_leaves_square(b, e, 0xa0bc6a67eac99307424545eb465f9ddb571e73d586db77a2472ad92bd8038389int, m, 0x64ec0faebf431825132267d54a0955f634f8bd817d0eb3f95b7b4bf8a91d9e44int, 0x30a3b17e1c062a0a4bc7cce9c927cf578f0ec4e0eaa0bb32bee1ac0231e91d95int);
    let e = lemma_leaves_next(b, e, 0x30a3b17e1c062a0a4bc7cce9c927cf578f0ec4e0eaa0bb32bee1ac0231e91d95int, m, 0x14ef0df5578ed93c984c1a844e04e564f6f0a61f68c61181b215802fbbb6f0f9int, 0x6ea696028ca52f70e2efd3e96c811614af5b683b8c5cc5750271fd48cdb075fint);
    let e = lemma_leaves_square(b, e, 0x6ea696028ca52f70e2efd3e96c811614af5b683b8c5cc5750271fd48cdb075fint, m, 0x2fd3955143e6ed27b0f1df28199cf139ae7e237a88d6da64db46e04d0c6495int, 0xe4310871f9f352e316d0cede8cea70dc0123394ec21e3b5aa7dac9add1ccb9d6int);
    let e = lemma_leaves_next(b, e, 0xe4310871f9f352e316d0cede8cea70dc0123394ec21e3b5aa7dac9add1ccb9d6int, m, 0x6235f798adf962440ac834d1c2f71181131a55757fb9488dffacb139f32286bdint, 0x340fcb9349b4ae5e956cc7f244dcb7ef0ef5c2524b69a2e27177a4de8dfbfff1int);
    let e = lemma_leaves_square(b, e, 0x340fcb9349b4ae5e956cc7f244dcb7ef0ef5c2524b69a2e27177a4de8dfbfff1int, m, 0xa966bad5dad615276237630afda8bf951ddbd94abb307955ab2fae2f698e408int, 0x2949f68e998c5bc80fc7d2fe4bbcd3d71bddd0bca0b050b97e7d38de5310e4e9int);
    let e = lemma_leaves_next(b, e, 0x2949f68e998c5bc80fc7d2fe4bbcd3d71bddd0bca0b050b97e7d38de5310e4e9int, m, 0x11c52e60314fd7b3323f69d26cd50925ad25f7cd23bccecdc61488383e8ace86int, 0x3c2660cbcdd10e8173c4f3232b6d28f67187e4f6224e17292e8aa734a778ec84int);
    let e = lemma_leaves_square(b, e, 0x3c2660cbcdd10e8173c4f3232b6d28f67187e4f6224e17292e8aa734a778ec84int, m, 0xe22032077b6989a402dd9ffc7922a74b206ac1e45389d41ddeb5fb9d110b74cint, 0xa2aaadab4f00d6b4c76fbca9a19cbc26d95cf32a730dd83c877eab0c9f545b5cint);
    let e = lemma_leaves_next(b, e, 0xa2aaadab4f00d6b4c76fbca9a19cbc26d95cf32a730dd83c877eab0c9f545b5cint, m, 0x46027e283b93b9cde396106503d0226de16992a7c353316210a1762f59f713a0int, 0x4d3183fae0434b56549c13834cbb05078ed875bfdc68c4fc0c72a947b0126da8int);
    let e = lemma_leaves_square(b, e, 0x4d3183fae0434b56549c13834cbb05078ed875bfdc68c4fc0c72a947b0126da8int, m, 0x1746d2f8cc43df6d21eea8ad6052456060e65b2ee10561d91cbbd33cef4e58d4int, 0x110fc39a6f81d7188a4171cefc34cd51473fec758200c9d5fe75ce8789e6d714int);
    let e = lemma_leaves_square(b, e, 0x110fc39a6f81d7188a4171cefc34cd51473fec758200c9d5fe75ce8789e6d714int, m, 0x12318f305800bc5a211de233dcaf64cac70608561c4ce2bae4162a91be79dc9int, 0xfb07d6f0b54bf595c90f8c4bdf71b19441452d980dcca6f2346d4c1bb08a3759int);
    let e = lemma_leaves_next(b, e, 0xfb07d6f0b54bf595c90f8c4bdf71b19441452d980dcca6f2346d4c1bb08a3759int, m, 0x6c0a5c3c752c5ff0ef5faaa53cf979cd18406bc4edb9cbc0c2018fc2a70d8b7bint, 0x2d014a91e13c37bccd0e1b0b5267edd616c0fdd52033969d302e7248f9d3d799int);
    let e = lemma_leaves_square(b, e, 0x2d014a91e13c37bccd0e1b0b5267edd616c0fdd52033969d302e7248f9d3d799int, m, 0x7e97438fbf50ba1803759973404405ab7739e1a592521f659eec1e103584c29int, 0xf299321263cd877b32c781ae17032622fc42668d1872be95be614a5c120a59aint);
    let e = lemma_leaves_next(b, e, 0xf299321263cd877b32c781ae17032622fc42668d1872be95be614a5c120a59aint, m, 0x68694e813c1bda11323bff93f7bc79663f2f8490abf9720f6bb74cd1ad7e98eint, 0xaccfaa6090e8a66fd4b9bd183844f8742b4c914758388eee734182fb7d8d947aint);
}

/// A power of an element, step by step.
proof fn power_256_bits_to_160_bits_6()
    ensures
        leaves(0x6e2de1e253b630ab90fb6c14c9913e3f79353ced1be9c68ed42e7ee18b96074eint, 0x124da24edc83f5c27fbb4bnat, 0x8d2dae178db8125c2347e54e5137bf16e09659187417c9c843bd426388110f8aint, 0xffffffff00000001000000000000000000000000ffffffffffffffffffffffffint),
{
    let (b, m) = (0x6e2de1e253b630ab90fb6c14c9913e3f79353ced1be9c68ed42e7ee18b96074eint, 0xffffffff00000001000000000000000000000000ffffffffffffffffffffffffint);
    power_256_bits_to_160_bits_5();
    let e = 0x124da24edc83f5c27fbnat;
    let e = lemma_leaves_square(b, e, 0xaccfaa6090e8a66fd4b9bd183844f8742b4c914758388eee734182fb7d8d947aint, m, 0x74a7b56730ef122c288ae04f710d368c0289005b4e4b864950b58f7d4e8a0a0cint, 0x13bb39dd3f298f943006b6bba6b719f742844158612a48ff8eaa3005570b5430int);
    let e = lemma_leaves_next(b, e, 0x13bb39dd3f298f943006b6bba6b719f742844158612a48ff8eaa3005570b5430int, m, 0x87dfc2f451e3aa2a30cc65b4bb825fafcdab1ecb25e8d3c41bbf1c1f6660375int, 0x6505492395be582d61f23727c235714188fac98deccb75b55f4f7e4d2f46fa15int);
    let e = lemma_leaves_square(b, e, 0x6505492395be582d61f23727c235714188fac98deccb75b55f4f7e4d2f46fa15int, m, 0x27dd2bd22c4e872e1d6d6cc8395afbd01569cd89ebb7692ca016a76a554c51d3int, 0x3ce63214e22a424b7b7b83007328f5393af1074877042a17e6a6e78dc315578cint);
    let e = lemma_leaves_square(b, e, 0x3ce63214e22a424b7b7b83007328f5393af1074877042a17e6a6e78dc315578cint, m, 0xe7cb677dfd31386f328a075508dec48df01dfd599e412d7d4866915369b43cbint, 0x115df260b628047a39fe2fe6fccfac35e25de73964a83b8dec410673f983b85bint);
    let e = lemma_leaves_next(b, e, 0x115df260b628047a39fe2fe6fccfac35e25de73964a83b8dec410673f983b85bint, m, 0x7797afc1d637d184c6e36af8998b6dd3fded628c03629d51455053cffb16aa5int, 0x7867315e55cd67f6f5ff6f41fc784e4c6da387997ece3cb1359cb2a80e30135fint);
    let e = lemma_leaves_square(b, e, 0x7867315e55cd67f6f5ff6f41fc784e4c6da387997ece3cb1359cb2a80e30135fint, m, 0x38a0e7e16c7fc43e249f379837309fd77157c5887467aa7ad1a5487ed3d25245int, 0xef83ffa054513a2034bd06ee73229d296e7b0a301c3a50833e401c547ce98f86int);
    let e = lemma_leaves_next(b, e, 0xef83ffa054513a2034bd06ee73229d296e7b0a301c3a50833e401c547ce98f86int, m, 0x6715a561ff05358a761f3ffa1bf9fdee09a23dbd20d6b1d311cfa43f5b84cd28int, 0x893bf489d07add46cb1a363d20be8d3ab4905c1cc6f1b259c371aff5a81f31fcint);
    let e = lemma_leaves_square(b, e, 0x893bf489d07add46cb1a363d20be8d3ab4905c1cc6f1b259c371aff5a81f31fcint, m, 0x499139c66bd1d2d8e95bf0aef4fd380a3fb4b94da0b4180e41f9a36588aa3e0bint, 0x78b9258ad14f06927d4fb79073fcae4b64d5b197e24f028c2ae6cd256d74ae1bint);
    let e = lemma_leaves_square(b, e, 0x78b9258ad14f06927d4fb79073fcae4b64d5b197e24f028c2ae6cd256d74ae1bint, m, 0x38ee1919a54c1f416dcd6ebee83831fc3a21cdd957ffb8992ba197fd7637af04int, 0x9ac328c5d6cdd77e0255b747f2d0db954e6fec258e907fb09183bb3cb31865ddint);
    let e = lemma_leaves_next(b, e, 0x9ac328c5d6cdd77e0255b747f2d0db954e6fec258e907fb09183bb3cb31865ddint, m, 0x429b9861c96a17fe8a0647fb93b2c03fd43cd86462330a5eec40d5ec13f828e0int, 0xf6d1b56db13df93594af93138f6f71888a8e822055cdd1d2439c0827feae3d36int);
    let e = lemma_leaves_square(b, e, 0xf6d1b56db13df93594af93138f6f71888a8e822055cdd1d2439c0827feae3d36int, m, 0xedf7b4797c4a823e7d73c09a6ffd7383100c7795f1e9a791372ecb698da46b3dint, 0xe9986cadf18c447af9303dcbeea94dd3a66184620c845eb88f4709ebf9af32a1int);
    let e = lemma_leaves_square(b, e, 0xe9986cadf18c447af9303dcbeea94dd3a66184620c845eb88f4709ebf9af32a1int, m, 0xd526d096b38a35cdbf4ad53da7b2bfb8a6deb1dffbde795d6d77936410dbdc58int, 0xacfaf7baa1a4eabd6dfb56f10a1f52c662b789970126279e0d82215d84fd2599int);
    let e = lemma_leaves_square(b, e, 0xacfaf7baa1a4eabd6dfb56f10a1f52c662b789970126279e0d82215d84fd2599int, m, 0x74e232ec065530701de7083c7d3d129d6993f7f862df211de13bee722f2e3f26int, 0xe3bc4e03e6a3ff88b66129cb18a348ccea5372416f102d58c354bab54d1dd497int);
    let e = lemma_leaves_next(b, e, 0xe3bc4e03e6a3ff88b66129cb18a348ccea5372416f102d58c354bab54d1dd497int, m, 0x6203ba919d142ad04dc4903821c3f3e8828f4711bdd1e81a35ca99eab78d0129int, 0xc09bfb58b25bbc8663e56845844c8b41e1b3de8e1f4435fb96ccfee394ede82bint);
    let e = lemma_leaves_square(b, e, 0xc09bfb58b25bbc8663e56845844c8b41e1b3de8e1f4435fb96ccfee394ede82bint, m, 0x90ea580ff0a2fa6a3f528de1d6cc4da29332caa9c3199c6a73c9c22e1c3adff5int, 0x7358b2ac97204531a7aa6f3e8a92fb330705b7d0fb9d3bd26994c3f98666d72eint);
    let e = lemma_leaves_square(b, e, 0x7358b2ac97204531a7aa6f3e8a92fb330705b7d0fb9d3bd26994c3f98666d72eint, m, 0x33f8cf42971c2a20deb6dd9135bb42c6915f02f37ba0157896750f41ceb6513bint, 0x3ee10139ee581fe34a0275eb76cc19a2c0c48d1a64be2a5486138d52243c9d7fint);
    let e = lemma_leaves_next(b, e, 0x3ee10139ee581fe34a0275eb76cc19a2c0c48d1a64be2a5486138d52243c9d7fint, m, 0x1b0ff38f8fef69b1930c77285343266eb33e864ff7b575813fa92dcc7bc67acaint, 0x26e07153ce144a18a807f1c5558831593e9fff7f29aac6e831e68f786bf6f07cint);
    let e = lemma_leaves_square(b, e, 0x26e07153ce144a18a807f1c5558831593e9fff7f29aac6e831e68f786bf6f07cint, m, 0x5e7666b6be927499380a3bb26a1e2c203d184bfcbac7b38fc3f732fe27d73cbint, 0x6060472c4f70e333496a09ce2745378c3d8694d3ca0e7503d8c3caaa9ab62fdbint);
    let e = lemma_leaves_next(b, e, 0x6060472c4f70e333496a09ce2745378c3d8694d3ca0e7503d8c3caaa9ab62fdbint, m, 0x297aa48b8977b1cc4e63e8709e18921553f79adbe18903fbe08b6bf675ed7dd0int, 0x8d2dae178db8125c2347e54e5137bf16e09659187417c9c843bd426388110f8aint);
}

/// A power of an element, step by step.
proof fn power_256_bits_to_160_bits_7()
    ensures
        leaves(0x6e2de1e253b630ab90fb6c14c9913e3f79353ced1be9c68ed42e7ee18b96074eint, 0x124da24edc83f5c27fbb4bef1nat, 0x566529d688cd0ae5d8d46caab59753d7753dfd596064410610598b0170d4ca27int, 0xffffffff00000001000000000000000000000000ffffffffffffffffffffffffint),
{
    let (b, m) = (0x6e2de1e253b630ab90fb6c14c9913e3f79353ced1be9c68ed42e7ee18b96074eint, 0xffffffff00000001000000000000000000000000ffffffffffffffffffffffffint);
    power_256_bits_to_160_bits_6();
    let e = 0x124da24edc83f5c27fbb4bnat;
    let e = lemma_leaves_square(b, e, 0x8d2dae178db8125c2347e54e5137bf16e09659187417c9c843bd426388110f8aint, m, 0x4ddb59eceaa3f7ad8e870cb77e25b5ae13ab649bca8b2094b12a80f7501cf76aint, 0x64955bba3320eb868fd4b53b4b388a19165dd8123bcd6c633075cf5901626dceint);
    let e = lemma_leaves_next(b, e, 0x64955bba3320eb868fd4b53b4b388a19165dd8123bcd6c633075cf5901626dceint, m, 0x2b4a346b7f5af9c59d78a60da042c5ccf3ae274026cc126d4f769d6a8cef5106int, 0xb3f5afeafab8a7485f83235bd7ada25e20a187dc758936611a8060ebdaa167caint);
    let e = lemma_leaves_square(b, e, 0xb3f5afeafab8a7485f83235bd7ada25e20a187dc758936611a8060ebdaa167caint, m, 0x7e817fcd49c6b9a3f5315d18eecb6a483b9d643e1f337dc47c9c5e31a9ef249fint, 0xc2f30ccfba59bf3d42b73122aefc6d5e31d67f77987684997b7fb59568175003int);
    let e = lemma_leaves_next(b, e, 0xc2f30ccfba59bf3d42b73122aefc6d5e31d67f77987684997b7fb59568175003int, m, 0x53e7603ecf111f5f7e2b207b07ab69069ae34311a1cd4b1fcb1dc4b029a8f4dcint, 0xbc5f7f6a3eedb0a9317832128677e3b07f68631405bc70594176a0cc06b56ac6int);
    let e = lemma_leaves_square(b, e, 0xbc5f7f6a3eedb0a9317832128677e3b07f68631405bc70594176a0cc06b56ac6int, m, 0x8a9c66c4674ecd2d7c83d09e34d1a43e8e293e6b5d471d768a4dd37c06252303int, 0x11e49c839b73a174c9008578ebaf26559faaa75490269596fb9c809d76a9b427int);
    let e = lemma_leaves_next(b, e, 0x11e49c839b73a174c9008578ebaf26559faaa75490269596fb9c809d76a9b427int, m, 0x7b37039d6dd256a0831d6be11ca289abc463cf7962374ea56f84a4e4337f4d3int, 0xf748b3b73856f08e0cd598f836457183fc008b8907730f72a0b1fd0ecab3e9b5int);
    let e = lemma_leaves_square(b, e, 0xf748b3b73856f08e0cd598f836457183fc008b8907730f72a0b1fd0ecab3e9b5int, m, 0xeedd5f7212ce9075bdb54e2663a3cde1ff6ad4663c9e7592d2bbcf7eed6fbc46int, 0x2e3fa99cba0804fb99f4bae3be02d39a47c1d3461ed73f34a7238c8d39e8b63fint);
    let e = lemma_leaves_square(b, e, 0x2e3fa99cba0804fb99f4bae3be02d39a47c1d3461ed73f34a7238c8d39e8b63fint, m, 0x85af0c946b9b017f51264532f47c70fa76df85e1a53124943365077e65d9a56int, 0xb8bc1ad67fe344b126b68ef766deaccdc745b44509b85688a9376e90c84b3dd7int);
    let e = lemma_leaves_next(b, e, 0xb8bc1ad67fe344b126b68ef766deaccdc745b44509b85688a9376e90c84b3dd7int, m, 0x4f81ef99d838bf6213c26457eef3319ef6ccea45506b1637198387bd783dc78eint, 0xad086c82e29eb027f711e31bb8c78a7d58938c34402cc3d0cd368ff586d58010int);
    let e = lemma_leaves_square(b, e, 0xad086c82e29eb027f711e31bb8c78a7d58938c34402cc3d0cd368ff586d58010int, m, 0x74f462f0516bb911b94e26a591ed40510853b54537a93ac9172fad13834d64f6int, 0x688e905b75a4cfe8f945a909e6a220fd5e7f58cfdfacbe129eacdfd29dfd65f6int);
    let e = lemma_leaves_next(b, e, 0x688e905b75a4cfe8f945a909e6a220fd5e7f58cfdfacbe129eacdfd29dfd65f6int, m, 0x2cffff58968cf3d3dc8489f8f99b41c97b581de0c1a88e5c4520c2e8817d91faint, 0xd01c2ffaf667844ea9ca12f33c72cff2073ca8cda9a7417d77369172e2a05ceeint);
    let e = lemma_leaves_square(b, e, 0xd01c2ffaf667844ea9ca12f33c72cff2073ca8cda9a7417d77369172e2a05ceeint, m, 0xa92dd113017a0b374f58254270ee6ca126158d6e5b403a3ee9269d81d4c8e4ebint, 0x9d37ff9f14fd0a4ae3b8479cd59baa0c1f6f6dbc135be0ffaa4686025804d22fint);
    let e = lemma_leaves_next(b, e, 0x9d37ff9f14fd0a4ae3b8479cd59baa0c1f6f6dbc135be0ffaa4686025804d22fint, m, 0x43aa3d67c4292fc5973782495dd88ae987c346a8486257271f062807689808e1int, 0xadb9e70c82adecf22a0530d617fb36841bea00388b0ea12b25791b6808595c33int);
    let e = lemma_leaves_square(b, e, 0xadb9e70c82adecf22a0530d617fb36841bea00388b0ea12b25791b6808595c33int, m, 0x75e4c9471f204f58d0a79eecff47e6db9fb2bd3562713fc50e54269357b2efa3int, 0x5c3d713b144675ab46d9acef87d15c9d276a62720bb3341096dd86f7c45da1ccint);
    let e = lemma_leaves_next(b, e, 0x5c3d713b144675ab46d9acef87d15c9d276a62720bb3341096dd86f7c45da1ccint, m, 0x27b2eed7feb839b1f047d148bb94231b8dc4457316b51b121489f9fadbb8fa24int, 0x794723a7f272b49a318831d92d443c6572b1bf833f6206b7661b61d9d134da4cint);
    let e = lemma_leaves_square(b, e, 0x794723a7f272b49a318831d92d443c6572b1bf833f6206b7661b61d9d134da4cint, m, 0x39745379c8c4984d1451590efa83977f2afa8d3ca802d079daa40e59d9fabcb9int, 0x1d4769ce1e7fcdc8278c4219bcafb504641ec253220d821adaab128b5b004349int);
    let e = lemma_leaves_square(b, e, 0x1d4769ce1e7fcdc8278c4219bcafb504641ec253220d821adaab128b5b004349int, m, 0x35941e49251dc61fd13e3dd590246a4a134bf375291b5dc91bb561450773c40int, 0x50142f00523fea803a74f52b19f5f8f650b032d56adf6e4ac559db3048268711int);
    let e = lemma_leaves_square(b, e, 0x50142f00523fea803a74f52b19f5f8f650b032d56adf6e4ac559db3048268711int, m, 0x190c9ef7ad2289b7ef303de7da67af79afe624245ae6e6914f9b6c7dac97ba5fint, 0xd9b2da2165ba7d53b2b1ba2804ea3f1339df0bd60326b39c714cdaa39ce6a980int);
    let e = lemma_leaves_square(b, e, 0xd9b2da2165ba7d53b2b1ba2804ea3f1339df0bd60326b39c714cdaa39ce6a980int, m, 0xb920b2c167e5382bdc0ddcd254fd7f0a0166a72464887babfe6d004fb07d886eint, 0x51972436a3bfc04eb31ea63e4d89e81341edb2127d13ea0da900c7b8b2b7c86eint);
    let e = lemma_leaves_next(b, e, 0x51972436a3bfc04eb31ea63e4d89e81341edb2127d13ea0da900c7b8b2b7c86eint, m, 0x231d911ef404ce5201e500ce4f7d58d9913e608919e71d069972d5a6cbe6b6a3int, 0x566529d688cd0ae5d8d46caab59753d7753dfd596064410610598b0170d4ca27int);
}

/// A power of an element, step by step.
proof fn power_256_bits_to_160_bits_8()
    ensures
        leaves(0x6e2de1e253b630ab90fb6c14c9913e3f79353ced1be9c68ed42e7ee18b96074eint, 0x124da24edc83f5c27fbb4bef1db6nat, 0xdadb57f718086f6fbc61d8860abdfb750792b97dd8b935271d58b5e48f30e1a5int, 0xffffffff00000001000000000000000000000000ffffffffffffffffffffffffint),
{
    let (b, m) = (0x6e2de1e253b630ab90fb6c14c9913e3f79353ced1be9c68ed42e7ee18b96074eint, 0xffffffff00000001000000000000000000000000ffffffffffffffffffffffffint);
    power_256_bits_to_160_bits_7();
    let e = 0x124da24edc83f5c27fbb4bef1nat;
    let e = lemma_leaves_square(b, e, 0x566529d688cd0ae5d8d46caab59753d7753dfd596064410610598b0170d4ca27int, m, 0x1d2820164b3040cde27a48e140e9145c0198a91099d423fa12bd59e641560518int, 0x16dc234240767d05b4922375a3085ad4b3f2970141830990a8c629f5d18f9709int);
    let e = lemma_leaves_next(b, e, 0x16dc234240767d05b4922375a3085ad4b3f2970141830990a8c629f5d18f9709int, m, 0x9d6b00464fcedfdf9d4a913c93b619597ea923adce09995886075cc7e72f5a2int, 0xd7207c0d84f54c1ec5545501c706f50b7edb70b23fa7213be1e0e57aa79a3960int);
    let e = lemma_leaves_square(b, e, 0xd7207c0d84f54c1ec5545501c706f50b7edb70b23fa7213be1e0e57aa79a3960int, m, 0xb4c7947ea999f13113acc464e8c39378d0212482892f9e0e2876ed9d8b35977fint, 0x6da2c434f401d4ba9dcd9bec65de3a47987c68aaa747e1ab67d5f0e1df917b7fint);
    let e = lemma_leaves_next(b, e, 0x6da2c434f401d4ba9dcd9bec65de3a47987c68aaa747e1ab67d5f0e1df917b7fint, m, 0x2f2f96a86954d1c47bb36c53e22f4c4cce59ac1a8dcd715fe8ba805c7ed11077int, 0xc29d756bf4af3bd10d26d9152b86f088db37fac101d02800a4b51c36e8ef2a29int);
    let e = lemma_leaves_square(b, e, 0xc29d756bf4af3bd10d26d9152b86f088db37fac101d02800a4b51c36e8ef2a29int, m, 0x93f306d16f129797b2802c3075205dda797e02bc46e22414edd89cb06be7867dint, 0x8c5ff4782b016407eba716ca8c43c35df2003a1c1be2d3067de3b9d67b67010eint);
    let e = lemma_leaves_square(b, e, 0x8c5ff4782b016407eba716ca8c43c35df2003a1c1be2d3067de3b9d67b67010eint, m, 0x4cf9175b16a7d22eb084ba041602c263506bab3469f58f4e3d8b24b24dc0cf8cint, 0x2d679aba040c5bdd39a78b01298a4da80b537e575d07d1b73397488f9b05ec50int);
    let e = lemma_leaves_next(b, e, 0x2d679aba040c5bdd39a78b01298a4da80b537e575d07d1b73397488f9b05ec50int, m, 0x138aa7c26747aaa22289a8649b9f32f9c32bea42b7d3c4e84e1940e9d9ceae08int, 0x9edc4db2173b9256dda99311cb7e987f93377a757c0837d48762690025f2de68int);
    let e = lemma_leaves_square(b, e, 0x9edc4db2173b9256dda99311cb7e987f93377a757c0837d48762690025f2de68int, m, 0x6294ad7dd8eec2625c3fe62fe6e639b059ce860e39c2687f2826a72de9eb4373int, 0x198bd011cd409bd597c21b08ee7de4431d083d6dcd47c8645fd811e137c3cdb3int);
    let e = lemma_leaves_next(b, e, 0x198bd011cd409bd597c21b08ee7de4431d083d6dcd47c8645fd811e137c3cdb3int, m, 0xafea785bbf956aae0cefd90a427f8400c7c62207d10a9bd96414f2295e37211int, 0xdd706de015f301b5c40ddf70f8aa1baa0bcc7fb2b13f38770a51cc05a60e039bint);
    let e = lemma_leaves_square(b, e, 0xdd706de015f301b5c40ddf70f8aa1baa0bcc7fb2b13f38770a51cc05a60e039bint, m, 0xbf8b4f15f8acab81e74668577895a47b0a7ded3eb0250092bc148065655f46ecint, 0x981a54212277741d6b970ae3f0804974255733ba7e2f58995e2bd9e4ce6046c5int);
    let e = lemma_leaves_square(b, e, 0x981a54212277741d6b970ae3f0804974255733ba7e2f58995e2bd9e4ce6046c5int, m, 0x5a5f469ce5ade3ab5caf05712f9589d9f73720978759394baabc9735aa9437ebint, 0x7e726dc0c544c972cb88b8aec6d8defeaea8c6dc434cfb7596c1b637dde48b84int);
    let e = lemma_leaves_next(b, e, 0x7e726dc0c544c972cb88b8aec6d8defeaea8c6dc434cfb7596c1b637dde48b84int, m, 0x366bd4d8b2e679088e867516f4e67bc0d767386893cf5ce0e41d152a5b4bfb2eint, 0x6c1e2b8f0eb24dcd82b27e71af372707c36eb9df972f9681d96d3efa2171966int);
    let e = lemma_leaves_square(b, e, 0x6c1e2b8f0eb24dcd82b27e71af372707c36eb9df972f9681d96d3efa2171966int, m, 0x2da9784f1f00ba9fe5f67109130f4fc96074ab2c56531568b569015fa5f47fint, 0x67bda058a28fa7c2fe685a455654d7ef8ab61829305b764a69de37b00a7f0923int);
    let e = lemma_leaves_next(b, e, 0x67bda058a28fa7c2fe685a455654d7ef8ab61829305b764a69de37b00a7f0923int, m, 0x2ca612c4d35624c082bf88fb292bd5ac037ac6f4d3b0bad1816cfdc3a932da34int, 0x5bac7aea0d184c2a12ee97dec427fdd9491fb4c1124e4f866df127d8b0a997deint);
    let e = lemma_leaves_square(b, e, 0x5bac7aea0d184c2a12ee97dec427fdd9491fb4c1124e4f866df127d8b0a997deint, m, 0x20d41397eba8dcdb2682aad8570c92b8791d3c79e3d576a8e207abacdc443bd8int, 0x584add1948d091acf95c138bf7509f40bd0c610dd7043ef222633777f977e05cint);
    let e = lemma_leaves_square(b, e, 0x584add1948d091acf95c138bf7509f40bd0c610dd7043ef222633777f977e05cint, m, 0x1e738de61215b4d88008b3cdfadf495e62439277663af9b58d6f35cb1b6a7d68int, 0xc7c7123a4e3b0262d680c56598176346ad8439da797f4760e78bbde86d939e78int);
    let e = lemma_leaves_next(b, e, 0xc7c7123a4e3b0262d680c56598176346ad8439da797f4760e78bbde86d939e78int, m, 0x55fb581a2def8225bc09376762dffc93c9e8fad7466153284d91351990c69bedint, 0xfd221e38a4b772d66a223381843ade5a2e4a457cf2143a8af6531febff662c7dint);
    let e = lemma_leaves_square(b, e, 0xfd221e38a4b772d66a223381843ade5a2e4a457cf2143a8af6531febff662c7dint, m, 0xfa4c7448fa7c2121c8138503086efba9dd51409ad9ffec5793ec822c4d5b6a0dint, 0x7fa644c3207d26c4ab093cedeee9f92008069c3a0db382464c232b12ceb29f16int);
    let e = lemma_leaves_next(b, e, 0x7fa644c3207d26c4ab093cedeee9f92008069c3a0db382464c232b12ceb29f16int, m, 0x36f052682228c3a5ca58a38ee59c978bb3462dd10605aed55479e258258b5d29int, 0xdf8f087b8dc68573904f4ec00b6066a96efd3de7119d70a253dd451a2b356fddint);
    let e = lemma_leaves_square(b, e, 0xdf8f087b8dc68573904f4ec00b6066a96efd3de7119d70a253dd451a2b356fddint, m, 0xc33a80b27e8ab5781b755797cdb6d77945fd56207e49e2af0f53dc44cecd7cdcint, 0xdadb57f718086f6fbc61d8860abdfb750792b97dd8b935271d58b5e48f30e1a5int);
}

/// A power of an element, step by step.
proof fn power_256_bits_to_160_bits_9()
    ensures
        leaves(0x6e2de1e253b630ab90fb6c14c9913e3f79353ced1be9c68ed42e7ee18b96074eint, 0x124da24edc83f5c27fbb4bef1db6f00nat, 0x24ca7edf1916fedbd42e8245f18b5264f4262dce9ed4102763c06a64d23eded0int, 0xffffffff00000001000000000000000000000000ffffffffffffffffffffffffint),
{
    let (b, m) = (0x6e2de1e253b630ab90fb6c14c9913e3f79353ced1be9c68ed42e7ee18b96074eint, 0xffffffff00000001000000000000000000000000ffffffffffffffffffffffffint);
    power_256_bits_to_160_bits_8();
    let e = 0x124da24edc83f5c27fbb4bef1db6nat;
    let e = lemma_leaves_square(b, e, 0xdadb57f718086f6fbc61d8860abdfb750792b97dd8b935271d58b5e48f30e1a5int, m, 0xbb1a4dc12f05aace8834e20e399c4b5d83af313afea37b473a6eb267a2a98dc6int, 0xa4acd49f65c01c024a5f9674851cb55208c530e4c44110d23c1b97bb5d6d021fint);
    let e = lemma_leaves_next(b, e, 0xa4acd49f65c01c024a5f9674851cb55208c530e4c44110d23c1b97bb5d6d021fint, m, 0x46dfc70ba1ea3e1c8b7fd5b227955ffad61c731ef84984d193a7b1fde17b0e94int, 0xbca07a3ca081f9190a85e2066335ec5e318c9d2ab8ae62451a2519e766ea8d06int);
    let e = lemma_leaves_square(b, e, 0xbca07a3ca081f9190a85e2066335ec5e318c9d2ab8ae62451a2519e766ea8d06int, m, 0x8afc18229ce177cdbba2861fdd69fcd31d95326886b42a97e3971ec407c401ceint, 0x35c846b11badcc676a2632fb1c40077e7352944f69af2f8a93888adeec6b9df2int);
    let e = lemma_leaves_next(b, e, 0x35c846b11badcc676a2632fb1c40077e7352944f69af2f8a93888adeec6b9df2int, m, 0x1725b20930b2849fedcd2af5994d83e743fc450af9ff480cfc37aeca227ff798int, 0xc724918882a5325152a07759db29d18b7bca3319274a4c60a069fab00e67b554int);
    let e = lemma_leaves_square(b, e, 0xc724918882a5325152a07759db29d18b7bca3319274a4c60a069fab00e67b554int, m, 0x9ae9df7c17275ef646c3fddf83f33a5e71eddd7a282789784285487a7f219ac1int, 0x8fbba1aba955bdfa795c82be12d20e8328e24429a213316a5efe2dd319297e51int);
    let e = lemma_leaves_next(b, e, 0x8fbba1aba955bdfa795c82be12d20e8328e24429a213316a5efe2dd319297e51int, m, 0x3ddc62466788b77d228157ff30f4fc2c2e124df567da7c02a8ab6ef5ee27b3d0int, 0x5c3e480d479d2511e1995014dbe228d2031822d63a1de4be55ea540eb9b6677eint);
    let e = lemma_leaves_square(b, e, 0x5c3e480d479d2511e1995014dbe228d2031822d63a1de4be55ea540eb9b6677eint, m, 0x213cd2f0a76beeac13d6f14ac39ddc3ccd86b5b345e66ec97b0f0743aa98b320int, 0x89cb244a6f0a393f4fd211992246c5ff30e1ae6bf164cab8e3fe2c9717975524int);
    let e = lemma_leaves_next(b, e, 0x89cb244a6f0a393f4fd211992246c5ff30e1ae6bf164cab8e3fe2c9717975524int, m, 0x3b4dfbe2f56447f8604ed3c0100c9bdd8ffe5ea49a347b659965c7f2175997fbint, 0x59f77a3ee7c948b96410368949ab20662ddff4b21f2c172e82c80a2ad9e184f3int);
    let e = lemma_leaves_square(b, e, 0x59f77a3ee7c948b96410368949ab20662ddff4b21f2c172e82c80a2ad9e184f3int, m, 0x1f9e023cfc8b41990aec693e86b8c3882264e87f5448dc1663699d0d891d8171int, 0xd75af310b424cdd3ea3da63b8d7755db9db425e31d652902c0ec52d8774f001aint);
    let e = lemma_leaves_square(b, e, 0xd75af310b424cdd3ea3da63b8d7755db9db425e31d652902c0ec52d8774f001aint, m, 0xb529e496924717456baf432a9ead93b3e417377536760b1020ecf4e8678bb8c6int, 0xc43ba8612e6ab09327512f184967e1f1a2b1332de7203cbf79d85341a397bb6aint);
    let e = lemma_leaves_square(b, e, 0xc43ba8612e6ab09327512f184967e1f1a2b1332de7203cbf79d85341a397bb6aint, m, 0x966b67bc7109dd1acfac5bf133595e400bf9252553ad795b76948c28b23a8af4int, 0xe0fdef8e4a5aba451f4c60a7c266dd9a59cca9bf5cedf1a6cc9306944e7a92d8int);
    let e = lemma_leaves_square(b, e, 0xe0fdef8e4a5aba451f4c60a7c266dd9a59cca9bf5cedf1a6cc9306944e7a92d8int, m, 0xc5bd5f1d27461a557efa8a4bc2edd7e7f1de9fa90f28e9ddfd95aec6b7aaf4f0int, 0x9ce0d432118600e1536c79266977a22feec7cc8dae1ace63765084b2a1c60b30int);
    let e = lemma_leaves_square(b, e, 0x9ce0d432118600e1536c79266977a22feec7cc8dae1ace63765084b2a1c60b30int, m, 0x6022c8116cffba75ffdbc0527e9dda8bc316fe329f9fc5e56e4ed3535b18579cint, 0x2d6ef39a362b92a235e24fb7c5f035f0f951ff11e01e0e96457a955b09d5809cint);
    let e = lemma_leaves_square(b, e, 0x2d6ef39a362b92a235e24fb7c5f035f0f951ff11e01e0e96457a955b09d5809cint, m, 0x81031ba7f70307571faa3f98ce4cbb008ff71facc03cd907ebc916205dc45b9int, 0xf44e04104aaa16014d0c1c02946e4db0bbd1430d960d2505b14c4d644210a4c9int);
    let e = lemma_leaves_square(b, e, 0xf44e04104aaa16014d0c1c02946e4db0bbd1430d960d2505b14c4d644210a4c9int, m, 0xe924cf8671770c7c27b5d607b150a3583ee13efa151b5700b34a2dbb8e15cd0fint, 0xca1e20ca225e6d1474c0e5b218f48c7ca2ae35e77015959c2dd06ad03547f2e0int);
    let e = lemma_leaves_square(b, e, 0xca1e20ca225e6d1474c0e5b218f48c7ca2ae35e77015959c2dd06ad03547f2e0int, m, 0x9f938f4b5163c9c267c27b702dd8e3ba9d7c8b0b24085963c29d5f9b73929ad0int, 0x24ca7edf1916fedbd42e8245f18b5264f4262dce9ed4102763c06a64d23eded0int);
}

/// A power of an element, step by step.
proof fn power_256_bits_to_160_bits_10()
    ensures
        leaves(0x6e2de1e253b630ab90fb6c14c9913e3f79353ced1be9c68ed42e7ee18b96074eint, 0x124da24edc83f5c27fbb4bef1db6f0054enat, 0x3bb4225da977495a237b5ef9b65789f4861f1bf369c8055d29258b922eb407e7int, 0xffffffff00000001000000000000000000000000ffffffffffffffffffffffffint),
{
    let (b, m) = (0x6e2de1e253b630ab90fb6c14c9913e3f79353ced1be9c68ed42e7ee18b96074eint, 0xffffffff00000001000000000000000000000000ffffffffffffffffffffffffint);
    power_256_bits_to_160_bits_9();
    let e = 0x124da24edc83f5c27fbb4bef1db6f00nat;
    let e = lemma_leaves_square(b, e, 0x24ca7edf1916fedbd42e8245f18b5264f4262dce9ed4102763c06a64d23eded0int, m, 0x54993db3b4c02f2980044d1cb3af3caa4311d8eb26b771cfa996e39e3c2ff8eint, 0xd4979897a7f37384a7b143144589743020ff0fd423fcfef110e6f5b7d270688eint);
    let e = lemma_leaves_square(b, e, 0xd4979897a7f37384a7b143144589743020ff0fd423fcfef110e6f5b7d270688eint, m, 0xb08b6e813c93384f30d289e090da4a15d3b4d37342c0c25f75c6a7194bf8ad23int, 0x69b8695b2f6d8a05a8a21289b3370fdd3210182ba1e4f192c6c08b01eaec5be7int);
    let e = lemma_leaves_next(b, e, 0x69b8695b2f6d8a05a8a21289b3370fdd3210182ba1e4f192c6c08b01eaec5be7int, m, 0x2d802ff86ce0c613fadaf4e7737c041456575bee20d1616a5b2b67eb428516f1int, 0xd2807e4a086316d192f1d3ed852ebecc88f546ff1a10b4e349cb445893666853int);
    let e = lemma_leaves_square(b, e, 0xd2807e4a086316d192f1d3ed852ebecc88f546ff1a10b4e349cb445893666853int, m, 0xad170fb0ab2ef9e108c5714cbb5820b8a84f3734dfdd169ef1c1244534535b39int, 0x6822d866e8f7723db7796632d52ceb854ecba2112b582aadce15ba1bd2fae622int);
    let e = lemma_leaves_square(b, e, 0x6822d866e8f7723db7796632d52ceb854ecba2112b582aadce15ba1bd2fae622int, m, 0x2a5c5491f9e9159e56fcbd5d639b1b100420edfe068d26d5aae46f9f3affde40int, 0xdd2e13e1a88be6bb172b87c000921cb6a7f9a241fbf431ece9aefa414c48fac4int);
    let e = lemma_leaves_next(b, e, 0xdd2e13e1a88be6bb172b87c000921cb6a7f9a241fbf431ece9aefa414c48fac4int, m, 0x5f3170cddec26a245e8ccc31e8f503887be62320d56dd2034aa51fe863931fe7int, 0x59030a17bbb6fa2fdf776f0689e2b578b29463e162965d6db4445a12fb82e39fint);
    let e = lemma_leaves_square(b, e, 0x59030a17bbb6fa2fdf776f0689e2b578b29463e162965d6db4445a12fb82e39fint, m, 0x1ef31d0ddc6c9a2a740b4b75dad3c82a9133fb98e85e69bf70a1d31ac9a53664int, 0xbe2142a377d16d1dcd40ebbf43b480f22ced802d5500cd0652a78ebc8b849325int);
    let e = lemma_leaves_square(b, e, 0xbe2142a377d16d1dcd40ebbf43b480f22ced802d5500cd0652a78ebc8b849325int, m, 0x8d35633d728dd75d0cbc6d5a3236b1d5563927286242063c2f926eafc6bf2369int, 0xfdf52928172a8a8ee84c781b34427a45e38735dd2516d8d827d6d57a077aa6c2int);
    let e = lemma_leaves_next(b, e, 0xfdf52928172a8a8ee84c781b34427a45e38735dd2516d8d827d6d57a077aa6c2int, m, 0x6d4cdbdce1f3008c7b3c5918edb7ac855f91c3987a7ad8a1699bb53376ba4bbbint, 0x75fd2cde5f96b293ea5a1016047fcb0bb1cb7ea83e3ef70c54331d81245468d7int);
    let e = lemma_leaves_square(b, e, 0x75fd2cde5f96b293ea5a1016047fcb0bb1cb7ea83e3ef70c54331d81245468d7int, m, 0x3661656531274682e1cb2c2e8fd8926ed898fcbb95c97d06155dd0075cf323fcint, 0x228fb229af9f5c030e31c5eef9ab451b502f206250d894fdb5020806ccfa888dint);
    let e = lemma_leaves_square(b, e, 0x228fb229af9f5c030e31c5eef9ab451b502f206250d894fdb5020806ccfa888dint, m, 0x4aa7bfb9de1037889e09762e4c39a08aa1367c2e92786c029db5cd7188afc2bint, 0x76d234365f5c29d7b02bd8ae59dfcbe4d2204d7b0a625b719676d242ccc519d4int);
    let e = lemma_leaves_square(b, e, 0x76d234365f5c29d7b02bd8ae59dfcbe4d2204d7b0a625b719676d242ccc519d4int, m, 0x372674bc0aea00cd1f6fce8d9e8fc56f5bcc467919cfcc6a27aa55f6838f7578int, 0x726569facb96e731bf6db8ac70fce2e34e21e9bf20babaebfee6303126728d08int);
    let e = lemma_leaves_next(b, e, 0x726569facb96e731bf6db8ac70fce2e34e21e9bf20babaebfee6303126728d08int, m, 0x313c144ddae1fcb860c5678058a0113844a8da9cc94d012f88b8151b233433c0int, 0x9eed3d2a76328f8bc97c14844285ec3c300eca9558977c098e60b9dbf6a66430int);
    let e = lemma_leaves_square(b, e, 0x9eed3d2a76328f8bc97c14844285ec3c300eca9558977c098e60b9dbf6a66430int, m, 0x62a9b35b1bcc3988263d1d72c8c5b164f70d9471404ab784622c699d23c52aa6int, 0xed7313b6f47443cdc29fc8dafae75183fd6dc1faeb357e51314d686f793ab3a6int);
    let e = lemma_leaves_next(b, e, 0xed7313b6f47443cdc29fc8dafae75183fd6dc1faeb357e51314d686f793ab3a6int, m, 0x663201378bf56f808428e53bb202a7dcb6358587e5460057bcdded75f5cd76afint, 0xd2cecef9af420ae5cec167a82d91c8de8843ba554bd2b787c94a4c93e5ddbd43int);
    let e = lemma_leaves_square(b, e, 0xd2cecef9af420ae5cec167a82d91c8de8843ba554bd2b787c94a4c93e5ddbd43int, m, 0xad97f2a4124d2462a5c1a6cc97911ef99e7e023f191421801ba357a2c357e4a8int, 0xbe4f4dab003c4e60cdecbc8b9eaf978267f02d34ecd2c57c2fccef3ef2f1e431int);
    let e = lemma_leaves_next(b, e, 0xbe4f4dab003c4e60cdecbc8b9eaf978267f02d34ecd2c57c2fccef3ef2f1e431int, m, 0x51e82f3c6692266cbc40569c2747f47028fb6cc852243ed24b8131f7187635ebint, 0x3e3d3e0658b41f120dd03a62fd2b49a32814663a161dcb76fd002d7d0b1d13d9int);
    let e = lemma_leaves_square(b, e, 0x3e3d3e0658b41f120dd03a62fd2b49a32814663a161dcb76fd002d7d0b1d13d9int, m, 0xf21b8b1c02650b4c48a91286ae4839924a42ec61248e71a2b4a5ca6080019f6int, 0x3bb4225da977495a237b5ef9b65789f4861f1bf369c8055d29258b922eb407e7int);
}

/// A power of an element, step by step.
proof fn power_256_bits_to_160_bits_11()
    ensures
        leaves(0x6e2de1e253b630ab90fb6c14c9913e3f79353ced1be9c68ed42e7ee18b96074eint, 0x124da24edc83f5c27fbb4bef1db6f0054ed2anat, 0x453bf1b0082a073d4ef3a5a18d54c38b8f1587248e1ffa6de733ce83c76cf511int, 0xffffffff00000001000000000000000000000000ffffffffffffffffffffffffint),
{
    let (b, m) = (0x6e2de1e253b630ab90fb6c14c9913e3f79353ced1be9c68ed42e7ee18b96074eint, 0xffffffff00000001000000000000000000000000ffffffffffffffffffffffffint);
    power_256_bits_to_160_bits_10();
    let e = 0x124da24edc83f5c27fbb4bef1db6f0054enat;
    let e = lemma_leaves_square(b, e, 0x3bb4225da977495a237b5ef9b65789f4861f1bf369c8055d29258b922eb407e7int, m, 0xdec8697925cd56e77e305746542b2a5b20911a261a178aceedc33abf48bd3feint, 0xc4d086dbec01c178412d99d2ad7e3f3a80f1ca35a6fd79460415429a15a2466fint);
    let e = lemma_leaves_next(b, e, 0xc4d086dbec01c178412d99d2ad7e3f3a80f1ca35a6fd79460415429a15a2466fint, m, 0x54b4e043cfc023ac3bb0117fff93a0a5c34a48150c56430ddcb44f7f31c30a51int, 0x9a52f1283e0514f2fc91194da289c9510d053a7e0b5a13fd64523ebc32b8923int);
    let e = lemma_leaves_square(b, e, 0x9a52f1283e0514f2fc91194da289c9510d053a7e0b5a13fd64523ebc32b8923int, m, 0x5d07e504289a8892912984abaa5ffae38c1fa6e904c2fd0c9d265e69d5cc70int, 0xa453ef26855524a07cb0dc97b19f327411cc00af72dc97734bb3d8f3170e4739int);
    let e = lemma_leaves_next(b, e, 0xa453ef26855524a07cb0dc97b19f327411cc00af72dc97734bb3d8f3170e4739int, m, 0x46b98482eacfaedbf4d16ed384e0ae1bc967fa9f409a511005af9c9c8691911cint, 0x98f18b4aa961063d204d8a8aa011cf38b5f6081da31f819a683746719f43d37aint);
    let e = lemma_leaves_square(b, e, 0x98f18b4aa961063d204d8a8aa011cf38b5f6081da31f819a683746719f43d37aint, m, 0x5b5fb95092e0031c45e26bbc7a7f59fda6b5e449fb34df5c2ed1b080d8450d11int, 0x7d7eaf3846540ab3f6c42ecaa3c7253515bf8af9311822a341da6cdec4d36335int);
    let e = lemma_leaves_square(b, e, 0x7d7eaf3846540ab3f6c42ecaa3c7253515bf8af9311822a341da6cdec4d36335int, m, 0x3d84f5ce25863f81eedc94115c0d539faf195842cc4e9de743392a4c955ac2aaint, 0xe20717bd99736d63ddf9f9d408eca2c54220ffed35704fb7752650ae6d2acba3int);
    let e = lemma_leaves_next(b, e, 0xe20717bd99736d63ddf9f9d408eca2c54220ffed35704fb7752650ae6d2acba3int, m, 0x61478ee31594e323ec06017c1822f5d416f41e5490aceceeba4cce77d41bd365int, 0xc47cb756a46391621c1259595e44df974dd872e130e7851109c990811539540fint);
    let e = lemma_leaves_square(b, e, 0xc47cb756a46391621c1259595e44df974dd872e130e7851109c990811539540fint, m, 0x96cf357f61c3e8eb134ba90fa8efd820939a656d6bb813079ab2c9a8aa8b46b7int, 0x70bc1db5d9ec5bf4a527aeeaab7996881437261f7181a7eb8c5ad567aad31f98int);
    let e = lemma_leaves_square(b, e, 0x70bc1db5d9ec5bf4a527aeeaab7996881437261f7181a7eb8c5ad567aad31f98int, m, 0x31a5243af6debc6553a0e6fb8f4c8a7c3730031dde62cf552267b2402063e3daint, 0x791ad97f48093b2e3dfd0ca3b9f430ff8c0bf7951a07d3a3d3bb22a318da0e1aint);
    let e = lemma_leaves_square(b, e, 0x791ad97f48093b2e3dfd0ca3b9f430ff8c0bf7951a07d3a3d3bb22a318da0e1aint, m, 0x394a646b7206c7a5287c7f2ac7cd7af796d99aafa6327fac8b5564b6f123b176int, 0xa72b0726a27df85f631e0d5d7488ab28d17920d54678cd1a9527de33d6328c1aint);
    let e = lemma_leaves_next(b, e, 0xa72b0726a27df85f631e0d5d7488ab28d17920d54678cd1a9527de33d6328c1aint, m, 0x47f27323bf7e549dfd5015f8cb8b90455723d351453c556dea4c87f26c28949bint, 0x42d1499609594e445d8c62ad7a267f1613318efe64609320a3408923469ffa87int);
    let e = lemma_leaves_square(b, e, 0x42d1499609594e445d8c62ad7a267f1613318efe64609320a3408923469ffa87int, m, 0x1170950aaa64ce7b887377ab73212e581851331e5fa06e19ec933d4b250de806int, 0x96ddc9f78ae82394466d8c0e5765a3843b23186e59fe952b7721d3021ebdb37int);
    let e = lemma_leaves_square(b, e, 0x96ddc9f78ae82394466d8c0e5765a3843b23186e59fe952b7721d3021ebdb37int, m, 0x58e8a8d4c46d2ed17b4116d5a0f454ba74c3979b6544b20db947aa97de27eeint, 0x49f83449c783c615b0dfb5871adb9175b211e996328b2c2219509a1af88f4dbfint);
    let e = lemma_leaves_next(b, e, 0x49f83449c783c615b0dfb5871adb9175b211e996328b2c2219509a1af88f4dbfint, m, 0x1fd5e85d8fcbb89abbd48dc3388c5adddca84fae89ba74882691b9ea34ee121eint, 0x5ff1e8d0fb4dae3fb0dcad3b5e2ec233783ffe68ade656a324a434fb1ea1fb50int);
    let e = lemma_leaves_square(b, e, 0x5ff1e8d0fb4dae3fb0dcad3b5e2ec233783ffe68ade656a324a434fb1ea1fb50int, m, 0x23f56f636badb10ec1a70d0e1df8441023227885790120fafbae3cfe13124591int, 0xb7a7035f63fb8e64a0cacc4d51558059b053e5469134b1da5d93e942e4683e91int);
    let e = lemma_leaves_square(b, e, 0xb7a7035f63fb8e64a0cacc4d51558059b053e5469134b1da5d93e942e4683e91int, m, 0x83c033c84b31ab72adb3c21deddbd4a2b854901048321c5278fff6650176532eint, 0x35125410b3dfeba9b775d48ef41e4fe5a66d521d6e7a0fb400f4050e2e90e14fint);
    let e = lemma_leaves_next(b, e, 0x35125410b3dfeba9b775d48ef41e4fe5a66d521d6e7a0fb400f4050e2e90e14fint, m, 0x16d7632c127cd4021e5eba19ebe26d8c26eac41e139d6d5b1faf8641b4206b7eint, 0xf8e46fe3972a911ab384e4b8b39c3ad1b7175d03e3d208c5e4314f82c3b83a90int);
    let e = lemma_leaves_square(b, e, 0xf8e46fe3972a911ab384e4b8b39c3ad1b7175d03e3d208c5e4314f82c3b83a90int, m, 0xf1fb64a1652a4902ff25df87e9c8f1a67578af1ce74bcc5feb3146782b076411int, 0x453bf1b0082a073d4ef3a5a18d54c38b8f1587248e1ffa6de733ce83c76cf511int);
}

/// A power of an element, step by step.
proof fn power_256_bits_to_160_bits_12()
    ensures
        leaves(0x6e2de1e253b630ab90fb6c14c9913e3f79353ced1be9c68ed42e7ee18b96074eint, 0x124da24edc83f5c27fbb4bef1db6f0054ed2a2a1nat, 0x510e95326e8e67d073b7d7c5bf1ec41b8d8087b99ccdcd8ef80e0303d43bd8dcint, 0xffffffff00000001000000000000000000000000ffffffffffffffffffffffffint),
{
    let (b, m) = (0x6e2de1e253b630ab90fb6c14c9913e3f79353ced1be9c68ed42e7ee18b96074eint, 0xffffffff00000001000000000000000000000000ffffffffffffffffffffffffint);
    power_256_bits_to_160_bits_11();
    let e = 0x124da24edc83f5c27fbb4bef1db6f0054ed2anat;
    let e = lemma_leaves_square(b, e, 0x453bf1b0082a073d4ef3a5a18d54c38b8f1587248e1ffa6de733ce83c76cf511int, m, 0x12b95e524270b202ee3719959c8cb39675e19da539edab636bc14160a93999e5int, 0x6c103b9507a9cc828e527bd987f4a2017fbd1b0d27a0054cdcc0026c82b2506int);
    let e = lemma_leaves_square(b, e, 0x6c103b9507a9cc828e527bd987f4a2017fbd1b0d27a0054cdcc0026c82b2506int, m, 0x2d9db34d6c93f55f27849c433d7b3f225a4c67641e982533984a20df223f19int, 0xfd6d48feaed3ab490a33ce4af04aad11770c7ad3c8b0803da7ab907b480fb3dint);
    let e = lemma_leaves_square(b, e, 0xfd6d48feaed3ab490a33ce4af04aad11770c7ad3c8b0803da7ab907b480fb3dint, m, 0xfae130ef9e20b1735161fce9f7bcef4d57cbb8206357bb49425ac6c2999310int, 0x44ffaf4850bd6ca2a697ff83ca72d284e2eb285bd7dae51a6cd7e466be2a3f99int);
    let e = lemma_leaves_next(b, e, 0x44ffaf4850bd6ca2a697ff83ca72d284e2eb285bd7dae51a6cd7e466be2a3f99int, m, 0x1db23b24b9711ea599f263c68189319a21d32d05aad71f82df47a0662b2472ecint, 0xbb92cb64ddd486e8e13df6c43008a6310f2801403c5dbb139daf97a99a67028aint);
    let e = lemma_leaves_square(b, e, 0xbb92cb64ddd486e8e13df6c43008a6310f2801403c5dbb139daf97a99a67028aint, m, 0x896fc952862a6c6133a370c4cee308d56a5e15cb179e63e6fbdc6afb30d71e1fint, 0x260ab4220b7b4e4031fa106e915493b8348aebeac3ff56d876a8a9b043e99083int);
    let e = lemma_leaves_square(b, e, 0x260ab4220b7b4e4031fa106e915493b8348aebeac3ff56d876a8a9b043e99083int, m, 0x5a72decb27893764bfa6d6670b8dc669c784113ffc0e8037e1ae2d43e9a8d98int, 0x9e18a6ff7f207cecead35a711439298b3a4350ea4656fe1c202a3b130a430a1int);
    let e = lemma_leaves_next(b, e, 0x9e18a6ff7f207cecead35a711439298b3a4350ea4656fe1c202a3b130a430a1int, m, 0x440aed96d7d0b9fe41f8e8ea4b5dac87747a5a418cc6e4baad3800bd33206c2int, 0x78d78246432c32dabbfa7ad41a4c3ad86310457d459d17909a82da7a0be33ed0int);
    let e = lemma_leaves_square(b, e, 0x78d78246432c32dabbfa7ad41a4c3ad86310457d459d17909a82da7a0be33ed0int, m, 0x390abf8e2c5472fa205e6616526013bd7b14281ddb7ba8d6c86afc02912e711cint, 0x71db3176eb360bde2cb1c3b71c3b17073781abe6b04143a32fca6b60e577da1cint);
    let e = lemma_leaves_square(b, e, 0x71db3176eb360bde2cb1c3b71c3b17073781abe6b04143a32fca6b60e577da1cint, m, 0x32a33d58d94e1f9376ba8c4748c57ab7ceb187e312e0a288daa6a3d7ab1ab0daint, 0xa40353dda0d53cb49b66281d1ea65f0e082ae5187e1951ea6ebd452a42f663eaint);
    let e = lemma_leaves_next(b, e, 0xa40353dda0d53cb49b66281d1ea65f0e082ae5187e1951ea6ebd452a42f663eaint, m, 0x4696d3572cef5aa8990312b1b3f4f82daa1847045a8ae64f5e3ba247f4033371int, 0x2c0dbbfd0bdc828eae74b789bb9cd1c94e9c874afe59fe229db0de45b0ed0abdint);
    let e = lemma_leaves_square(b, e, 0x2c0dbbfd0bdc828eae74b789bb9cd1c94e9c874afe59fe229db0de45b0ed0abdint, m, 0x794b95ba5676416856bb3b91e245d16de438220a5dd517389721e9b3e26af16int, 0x1bb90cc697305a65af08f2bc1b811d40418d84dc65602e9618007ebe008bfe9fint);
    let e = lemma_leaves_square(b, e, 0x1bb90cc697305a65af08f2bc1b811d40418d84dc65602e9618007ebe008bfe9fint, m, 0x3008e755e8e7da436003ecaec41b4a7ffd0fcd6c13deddf74df2d92979a44a0int, 0xd9cc08c1356ae237474bfae6e06e023b3bde180600e7497fe351f22515842b61int);
    let e = lemma_leaves_square(b, e, 0xd9cc08c1356ae237474bfae6e06e023b3bde180600e7497fe351f22515842b61int, m, 0xb94b89763a1484780433658e53fff4f8cd55a65e723da58a7d3f9eff99f8bc2cint, 0xaaa38d4aece36dc67b4d668da916d11a001bcbfe59d6266712a88064475a76edint);
    let e = lemma_leaves_square(b, e, 0xaaa38d4aece36dc67b4d668da916d11a001bcbfe59d6266712a88064475a76edint, m, 0x71bda0252fc0f66e7a235e1263795dcd8b8d4245b6c9138dd63d6c3689b5079eint, 0xdbb78c601595c16a3ec7e28b58bb0efd944b7fba7929f05b8acaa34dd5985f07int);
    let e = lemma_leaves_square(b, e, 0xdbb78c601595c16a3ec7e28b58bb0efd944b7fba7929f05b8acaa34dd5985f07int, m, 0xbc938dc71fd9de78ae453dc1b741d6877b3780d28cbb811ec0d4c834c3058114int, 0x37b841bf3981f5e7677fc7bf47794a97da589ed730c3c0ac7cc3c53d649bb345int);
    let e = lemma_leaves_next(b, e, 0x37b841bf3981f5e7677fc7bf47794a97da589ed730c3c0ac7cc3c53d649bb345int, m, 0x17fb28ce05f99d93358e2f1d141bf0a774c7ee74e2c5959a48ef3958697656d6int, 0x510e95326e8e67d073b7d7c5bf1ec41b8d8087b99ccdcd8ef80e0303d43bd8dcint);
}

/// A power of an element, step by step.
proof fn power_256_bits_to_160_bits_13()
    ensures
        leaves(0x6e2de1e253b630ab90fb6c14c9913e3f79353ced1be9c68ed42e7ee18b96074eint, 0x926d1276e41fae13fdda5f78edb7802a76951509nat, 0x1int, 0xffffffff00000001000000000000000000000000ffffffffffffffffffffffffint),
{
    let (b, m) = (0x6e2de1e253b630ab90fb6c14c9913e3f79353ced1be9c68ed42e7ee18b96074eint, 0xffffffff00000001000000000000000000000000ffffffffffffffffffffffffint);
    power_256_bits_to_160_bits_12();
    let e = 0x124da24edc83f5c27fbb4bef1db6f0054ed2a2a1nat;
    let e = lemma_leaves_square(b, e, 0x510e95326e8e67d073b7d7c5bf1ec41b8d8087b99ccdcd8ef80e0303d43bd8dcint, m, 0x19aa3b3eac182f24faacd71cb8ef4562976ad35f62ceb42dda47f292e7fe53efint, 0x812469e1b68da15c46fd080044d228ed0296e50de83e1fbe2c75ce4f51a50ffint);
    let e = lemma_leaves_square(b, e, 0x812469e1b68da15c46fd080044d228ed0296e50de83e1fbe2c75ce4f51a50ffint, m, 0x4125b7e3ae66bb1a644102abeeece581d8b31fc94772646700eca0f560fdfaint, 0xa6e8071f940f884e54a7a018a9b2488fc4bf3105a4a9674afb35dc9598cd5bfbint);
    let e = lemma_leaves_square(b, e, 0xa6e8071f940f884e54a7a018a9b2488fc4bf3105a4a9674afb35dc9598cd5bfbint, m, 0x6cd1bb8a4a44fa748c0f5481e98e513741b9335737d7ce6ab52b4e5c06b8d930int, 0x971dc7b66ca4718c41d448ef00e36abbdb37764645a062f92d724a8087c34149int);
    let e = lemma_leaves_next(b, e, 0x971dc7b66ca4718c41d448ef00e36abbdb37764645a062f92d724a8087c34149int, m, 0x4109e16385057b44ebbb3a7f79578b0bee4062a5a5dcd6fcfa40e91c67f31cc3int, 0x1int);
}

/// A prime of 256 bits.
pub proof fn lemma_prime_256_bits()
    ensures
        prime(0xffffffff00000001000000000000000000000000ffffffffffffffffffffffffint),
{
    lemma_prime_160_bits();
    power_256_bits_to_160_bits_13();
    lemma_of_prime_order(
        0x6e2de1e253b630ab90fb6c14c9913e3f79353ced1be9c68ed42e7ee18b96074eint,
        0x926d1276e41fae13fdda5f78edb7802a76951509int,
        0x4f5b418eca523fb75369a24772ba6e620c00261d7f768df08143595c559af3ceint,
        0xffffffff00000001000000000000000000000000ffffffffffffffffffffffffint,
        0x22276f3b6051c72a50251baf7be7d0e405575a296daf2bd8e083a1a94f06090bint,
    );
    lemma_prime_by_one(
        0xffffffff00000001000000000000000000000000ffffffffffffffffffffffffint,
        0x6e2de1e253b630ab90fb6c14c9913e3f79353ced1be9c68ed42e7ee18b96074eint,
        0x926d1276e41fae13fdda5f78edb7802a76951509int,
        0x4f5b418eca523fb75369a24772ba6e620c00261d7f768df08143595c559af3ceint,
    );
}

} // verus!
