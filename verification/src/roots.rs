//! The value and the order of the root of unity from which every evaluation
//! domain is derived, computed by repeated squaring.
//!
//! Every step of a chain names the next power and the quotient of the
//! division that reduces it, so that each step is checked by one
//! multiplication and one addition.

use vstd::prelude::*;
use vstd::arithmetic::div_mod::lemma_fundamental_div_mod_converse;
use vstd::arithmetic::power2::{lemma2_to64, pow2};
use crate::algebra::{lemma_fpow_add, lemma_fpow_one};
use crate::domain::root_of_unity;
use crate::field::{fpow, modulus, multiplicative_generator, odd_cofactor};

verus! {

/// The value of the fixed root of unity of order 2^32.
pub open spec fn root_of_unity_value() -> nat {
    0x16a2a19edfe81f20_d09b681922c813b4_b63683508c2280b9_3829971f439f0d2bnat
}

/// Doubling an exponent squares the power.
proof fn lemma_square_step(base: nat, exp: nat, power: nat, quotient: nat, squared: nat)
    requires
        fpow(base, exp) == power,
        power * power == quotient * modulus() + squared,
        squared < modulus(),
    ensures
        fpow(base, 2 * exp) == squared,
{
    lemma_fpow_add(base, exp, exp);
    lemma_fundamental_div_mod_converse(
        (power * power) as int,
        modulus() as int,
        quotient as int,
        squared as int,
    );
}

/// Adding one to an exponent multiplies the power by the base.
proof fn lemma_multiply_step(base: nat, exp: nat, power: nat, quotient: nat, product: nat)
    requires
        fpow(base, exp) == power,
        base * power == quotient * modulus() + product,
        product < modulus(),
    ensures
        fpow(base, exp + 1) == product,
{
    lemma_fundamental_div_mod_converse(
        (base * power) as int,
        modulus() as int,
        quotient as int,
        product as int,
    );
}

/// The generator raised to a leading part of the odd cofactor.
proof fn lemma_generator_power_0()
    ensures
        fpow(7, 0x39fnat) == 0x2c5fd98c7cfb65f0_fe7fcb2cc715b7e2_ca8f4cd2642c8b6e_06b3a30ec2071b61nat,
{
    lemma_fpow_one(7);
    let e0: nat = 0x1nat;
    let r0: nat = 0x7nat;
    let r1: nat = 0x31nat;
    let e1: nat = 2 * e0;
    lemma_square_step(7, e0, r0, 0x0nat, r1);
    let r2: nat = 0x157nat;
    let e2: nat = e1 + 1;
    lemma_multiply_step(7, e1, r1, 0, r2);
    let r3: nat = 0x1cb91nat;
    let e3: nat = 2 * e2;
    lemma_square_step(7, e2, r2, 0x0nat, r3);
    let r4: nat = 0xc90f7nat;
    let e4: nat = e3 + 1;
    lemma_multiply_step(7, e3, r3, 0, r4);
    let r5: nat = 0x9de93ece51nat;
    let e5: nat = 2 * e4;
    lemma_square_step(7, e4, r4, 0x0nat, r5);
    let r6: nat = 0x6167_eb8c7252078275a1nat;
    let e6: nat = 2 * e5;
    lemma_square_step(7, e5, r5, 0x0nat, r6);
    let r7: nat = 0x250feaaf_d2614ea2bead8d2d_3ea7240e7b908f41nat;
    let e7: nat = 2 * e6;
    lemma_square_step(7, e6, r6, 0x0nat, r7);
    let r8: nat = 0x1036f6ace_c0a9267336bedc3c_b691fc6560f3eac7nat;
    let e8: nat = e7 + 1;
    lemma_multiply_step(7, e7, r7, 0, r8);
    let r9: nat = 0x62dac4e6d8fb21a5_cff2c62545f1e1e0_efe6a3aa5b6f011d_0335fdde4a22af2cnat;
    let e9: nat = 2 * e8;
    lemma_square_step(7, e8, r8, 0x2_44969b2982f7b785nat, r9);
    let r10: nat = 0x70571db01eca791f_af8232dcb973f50b_ec9a459980113bd0_1679f11906f2ca2fnat;
    let e10: nat = e9 + 1;
    lemma_multiply_step(7, e9, r9, 5, r10);
    let r11: nat = 0x4fd7ad86b64bfd9b_6d2c0667a0d789e3_874146ae303635d9_929d99fb1e0cc1e2nat;
    let e11: nat = 2 * e10;
    lemma_square_step(7, e10, r10, 0x6cdd01ebec2152e6_bcb53639b8a71c6a_a20abfe9d30158bf_14961baef67d72bfnat, r11);
    let r12: nat = 0x5f2f2162559dfa1f_2f4cccb53f5d6523_63d25eb7518208f7_024f35e1d2594d2anat;
    let e12: nat = e11 + 1;
    lemma_multiply_step(7, e11, r11, 4, r12);
    let r13: nat = 0x720a8559c309d3b2_1c2e8425f0dbb865_d62b5e5afea786fd_3858b16c67303f1fnat;
    let e13: nat = 2 * e12;
    lemma_square_step(7, e12, r12, 0x4e26df7762d39acc_5952487e8203b231_e25f66462658c45e_b69d03ec3f460bc5nat, r13);
    let r14: nat = 0x66b7b9815b93da2d_91ea8cd95c36faa8_e4bdbc6af69e88f2_8a6cd9fcd251b9d3nat;
    let e14: nat = e13 + 1;
    lemma_multiply_step(7, e13, r13, 6, r14);
    let r15: nat = 0x3805d480da8bfb1c_cc98c2c0b2dabffe_1c412cb1a097f233_dc62ce26404a287cnat;
    let e15: nat = 2 * e14;
    lemma_square_step(7, e14, r14, 0x5b032f4a58ac9c28_bd2ff02804f653f0_cef24c18c0987152_be7b69a40a1e7b6dnat, r15);
    let r16: nat = 0x2c5fd98c7cfb65f0_fe7fcb2cc715b7e2_ca8f4cd2642c8b6e_06b3a30ec2071b61nat;
    let e16: nat = e15 + 1;
    lemma_multiply_step(7, e15, r15, 3, r16);
}

/// The generator raised to a leading part of the odd cofactor.
proof fn lemma_generator_power_1()
    ensures
        fpow(7, 0x1cfb68nat) == 0x3fdbd7ac6df8d364_9b13bd8a3fc5f0e1_d331b44e1ead7241_71ce6707d1cc00eenat,
{
    lemma_generator_power_0();
    let e0: nat = 0x39fnat;
    let r0: nat = 0x2c5fd98c7cfb65f0_fe7fcb2cc715b7e2_ca8f4cd2642c8b6e_06b3a30ec2071b61nat;
    let r1: nat = 0x666300da558eb4b4_f041747e5294f2c0_4291273df8070772_d56d3baa3b4fcc74nat;
    let e1: nat = 2 * e0;
    lemma_square_step(7, e0, r0, 0x10fc42d911c87b1b_95eb791d120f2bab_8d8452121bf94c4e_23d7dcf04aebce4dnat, r1);
    let r2: nat = 0x66967b76143f570b_8aee3f9c2ca054f1_2755dbe1a64c164f_685efff65ff79215nat;
    let e2: nat = 2 * e1;
    lemma_square_step(7, e1, r1, 0x5a6d4afa90c57126_861eb619db589658_af3b6630e22241e4_414965b1eae9827bnat, r2);
    let r3: nat = 0x168b7447940a719f_9928ad14fe974278_1ce72b198c1e7431_da98ffc29fc4fe8dnat;
    let e3: nat = e2 + 1;
    lemma_multiply_step(7, e2, r2, 6, r3);
    let r4: nat = 0x570c502e9d32651e_abbedaa7c3d1c05a_c2a9f873f5069d21_a78aefb91368a9f4nat;
    let e4: nat = 2 * e3;
    lemma_square_step(7, e3, r3, 0x46261f5f45ed9f2_e4f8932c0a11467b_d5d269d43ea309be_98e57f79d79b6fb5nat, r4);
    let r5: nat = 0x1db1eca67c4d516d_b216c26e2a930a60_aff1971cb3367ff0_94cc8e1487dca5a7nat;
    let e5: nat = e4 + 1;
    lemma_multiply_step(7, e4, r4, 5, r5);
    let r6: nat = 0x53c5a21b548247a0_cffb860ddc3ea504_81b0cbb30657bd75_d68d1f33396974d8nat;
    let e6: nat = 2 * e5;
    lemma_square_step(7, e5, r5, 0x79b3b33cf03914b_907194473fa60b63_ba6f6b1e324cf933_98c3b9e10acf3e19nat, r6);
    let r7: nat = 0x3637140850f64a45_6882e40c7e3b713f_d5608c42716bfb95_1a245ef601cccc0bnat;
    let e7: nat = 2 * e6;
    lemma_square_step(7, e6, r6, 0x3c89050f51d6f2ac_45a82c6745ba6be2_2c0e4ccc5031aa83_6fb44ac83cb7aa35nat, r7);
    let r8: nat = 0x1fb89640b9e3900d_41e6b43f56ba90ae_da6ae9c819f8cd16_b6fe98bd0c99944anat;
    let e8: nat = e7 + 1;
    lemma_multiply_step(7, e7, r7, 3, r8);
    let r9: nat = 0x59f02f2e5c3f903a_227149c7e48b433b_de8f141abd010994_8f0f3b8d1a0fb247nat;
    let e9: nat = 2 * e8;
    lemma_square_step(7, e8, r8, 0x8ae019a08692cf5_c6e8a796416905a0_88a11f927b27374b_538e4edd6c49f31dnat, r9);
    let r10: nat = 0x31ed05a4b5a97f2d_f0f7cc4f0fa59e88_733558ac2b0f7714_e96aa0e0b66ddfecnat;
    let e10: nat = e9 + 1;
    lemma_multiply_step(7, e9, r9, 5, r10);
    let r11: nat = 0x3271b44618cc89a0_264fb2d7e0782a9a_a7db7a670de5e840_22fd0171fa1b404anat;
    let e11: nat = 2 * e10;
    lemma_square_step(7, e10, r10, 0x15804b35ddc08e5d_e41c093c7aa3a19e_acd099d29b8bda28_075c066008b9c146nat, r11);
    let r12: nat = 0x6b4436d43c621039_c177bff9bdff7e17_87041d3f529b5355_37ff4918a9d57613nat;
    let e12: nat = 2 * e11;
    lemma_square_step(7, e11, r11, 0x15f32b4e4c836c3a_fbd11b684cf26c8d_d430c79bd00e0aa2_f718e8037deb9f51nat, r12);
    let r13: nat = 0x374b93daacfd81e3_16eb2fa3f8316284_baaaf4a942491f5a_87faffb2a4d63a7fnat;
    let e13: nat = e12 + 1;
    lemma_multiply_step(7, e12, r12, 6, r13);
    let r14: nat = 0x45b8645018d4d6fe_73a58e8bee40d118_1fc97ebbcbbd3966_6d7004faec07e5canat;
    let e14: nat = 2 * e13;
    lemma_square_step(7, e13, r13, 0x1a5fe4e7451e0e8d_dce70b8159259541_97c65123e0397955_d6db6910a5a9e537nat, r14);
    let r15: nat = 0x1b44b008abe0ffe3_5c2931988169a12e_15e592311690485a_820a16a5ce3d4a23nat;
    let e15: nat = 2 * e14;
    lemma_square_step(7, e14, r14, 0x29ee2c7d70bc3155_cc59586b84ab99aa_6f3b4f35f5fa84d5_ac01510e0111b941nat, r15);
    let r16: nat = 0x3fdbd7ac6df8d364_9b13bd8a3fc5f0e1_d331b44e1ead7241_71ce6707d1cc00eenat;
    let e16: nat = 2 * e15;
    lemma_square_step(7, e15, r15, 0x669f9e5d97b7d3d_f1a1c84945fc0d6a_5b7053f6ce35510e_db2e1fedec5a3fdbnat, r16);
}

/// The generator raised to a leading part of the odd cofactor.
proof fn lemma_generator_power_2()
    ensures
        fpow(7, 0x73eda752nat) == 0x327b4c3689c0f9d8_335597e304bf25ad_cfb7ba433fedaef3_99becf7ed33901f0nat,
{
    lemma_generator_power_1();
    let e0: nat = 0x1cfb68nat;
    let r0: nat = 0x3fdbd7ac6df8d364_9b13bd8a3fc5f0e1_d331b44e1ead7241_71ce6707d1cc00eenat;
    let r1: nat = 0x6339efbd84f54fe7_a3dca6afa1840e1c_cb230219d6c30bcd_1ca4d139bc94067fnat;
    let e1: nat = e0 + 1;
    lemma_multiply_step(7, e0, r0, 3, r1);
    let r2: nat = 0xcdab1a16ac5667b_020f551a2c94a0bd_f18441cf5d2966ee_7d9496ef970afc6bnat;
    let e2: nat = 2 * e1;
    lemma_square_step(7, e1, r1, 0x54ee3aefa7cf5e46_5f63e32fbca15fdc_107830284a3b2c67_488aa15673f73696nat, r2);
    let r3: nat = 0x59fadb69eb65cd5d_0e6b53b738106531_9a9dccab8c21d085_6f10208d214ce6ednat;
    let e3: nat = e2 + 1;
    lemma_multiply_step(7, e2, r2, 0, r3);
    let r4: nat = 0x6336e556bfe87ad1_953d92024d767593_3b4ceed5e1e4b1e1_6baa10ca99337dc0nat;
    let e4: nat = 2 * e3;
    lemma_square_step(7, e3, r3, 0x45d6eda4c853969c_5c2662af5a028452_1475c8923403029c_528fb4936dd339a9nat, r4);
    let r5: nat = 0x72dc00bf6f47e952_148dc5e7ee13feeb_fc6653ca2d49112e_f1a6758f3068703bnat;
    let e5: nat = e4 + 1;
    lemma_multiply_step(7, e4, r4, 5, r5);
    let r6: nat = 0x3d42c015b9731b6b_006b65b3b9697406_164c851109482495_9c1ab6d4166c238fnat;
    let e6: nat = 2 * e5;
    lemma_square_step(7, e5, r5, 0x71cce020a8ad7402_e8cb856309bb2d11_810c58e0ce5d0d91_058b77d16ab78a0anat, r6);
    let r7: nat = 0x30378429021e6b2a_722de7bd99d95270_015dfc4b985795fe_69fdd10318f86057nat;
    let e7: nat = 2 * e6;
    lemma_square_step(7, e6, r6, 0x205f55c391e1d524_10ee6bd8c83b3fd3_ada1a274aa8a460f_7f4f352980a0098anat, r7);
    let r8: nat = 0x69a94e78bb99f398_b8cda61f21ad9105_62169e0b2a6861f6_e5f0b717aecaa25fnat;
    let e8: nat = e7 + 1;
    lemma_multiply_step(7, e7, r7, 2, r8);
    let r9: nat = 0x3b8abac0a0508976_400f55dc64b9ece7_d8bffebf1d60d02c_8c02f99a5b7c11e3nat;
    let e9: nat = 2 * e8;
    lemma_square_step(7, e8, r8, 0x604dbbf44b103839_1a9160597ed1f94c_fbd00ad4a0254a3d_dd6e67f36d6c4d5enat, r9);
    let r10: nat = 0x38a8db92e47de752_da64a189bd15c3f6_be30b7776ef70986_759dbf3c5f0b0a7dnat;
    let e10: nat = 2 * e9;
    lemma_square_step(7, e9, r9, 0x1e94d025bceb7ef3_1e875cbb6d266203_ea82842be520075b_fecdb184581ce4ccnat, r10);
    let r11: nat = 0x30d50b0ac298db6b_5f12e2ac0eb2d3af_381c183b08c62eb0_37503aa9994d4968nat;
    let e11: nat = e10 + 1;
    lemma_multiply_step(7, e10, r10, 3, r11);
    let r12: nat = 0x48bccb4f9cc5affa_1fdc0c6b41970103_7309763e138f8bb4_12e62ae446811f7cnat;
    let e12: nat = 2 * e11;
    lemma_square_step(7, e11, r11, 0x1491c868d59bb602_e023df3dac6422d8_6de12d18d79cb1fe_8e50b443471b5ac4nat, r12);
    let r13: nat = 0xe0353987b259882_a40b624ae6e7fd13_8181a419c7eebb88_5ed477dcdb8d9fe0nat;
    let e13: nat = 2 * e12;
    lemma_square_step(7, e12, r12, 0x2da355d1b2494161_9f23067f31045f4d_184984464153f1b5_5f04cf8bb349a430nat, r13);
    let r14: nat = 0x46621cd38bda1248_70b068c9abc2c135_4ed5696894622fa1_b94fdbf48cd887dbnat;
    let e14: nat = 2 * e13;
    lemma_square_step(7, e13, r13, 0x1b19f79ba6f5cf0_9226da5cf13e1cf5_8f36b1c3f0841c37_87c8471333bf7c25nat, r14);
    let r15: nat = 0x1cf82c7c2c808ada_47eb7d638bcbe85f_d8df51d00eb5dd70_112f03b3d9ebb6f9nat;
    let e15: nat = e14 + 1;
    lemma_multiply_step(7, e14, r14, 4, r15);
    let r16: nat = 0x327b4c3689c0f9d8_335597e304bf25ad_cfb7ba433fedaef3_99becf7ed33901f0nat;
    let e16: nat = 2 * e15;
    lemma_square_step(7, e15, r15, 0x73d3be010c17748_52b0144e82e1bfca_f95120720dbe55b1_65d05833beb3fc41nat, r16);
}

/// The generator raised to a leading part of the odd cofactor.
proof fn lemma_generator_power_3()
    ensures
        fpow(7, 0x39f6d3a994cnat) == 0x4480af9b7b7ff903_ff0f8b5207bebb45_2d650d8f7e72eefd_fd6551a15e72eb94nat,
{
    lemma_generator_power_2();
    let e0: nat = 0x73eda752nat;
    let r0: nat = 0x327b4c3689c0f9d8_335597e304bf25ad_cfb7ba433fedaef3_99becf7ed33901f0nat;
    let r1: nat = 0x5961f84476e5d10_cda99f1d04547fb0_b2cd2bcdbf84b4ac_3437ac7ac68f0d8dnat;
    let e1: nat = e0 + 1;
    lemma_multiply_step(7, e0, r0, 3, r1);
    let r2: nat = 0x4a4342be41db382d_13bf9d685b748943_d7ec403ffbbdb171_3beb7ef3a117e74dnat;
    let e2: nat = 2 * e1;
    lemma_square_step(7, e1, r1, 0x44ea62229bfb4a_529295213f1bca8d_e865982ae4904dc0_926034b29f25b85cnat, r2);
    let r3: nat = 0x167109fc5abcb85e_11b87d7847783009_6a948bdfc9b26e01_908f5213c1fe3f2dnat;
    let e3: nat = 2 * e2;
    lemma_square_step(7, e2, r2, 0x2f92750a58da90db_301a8a104eaf8576_066cbd8c64497423_ce12774078d3cdfcnat, r3);
    let r4: nat = 0x199b2c692a3ed38c_d99bf57f39688ff6_b652df830875a1b9_13265ca94bb12231nat;
    let e4: nat = 2 * e3;
    lemma_square_step(7, e3, r3, 0x45821d59f7dbfb5_78a3ed251d9ecc81_9ad98a51f6fc1ac3_5b893b7ffb320bb8nat, r4);
    let r5: nat = 0x3f508f8cfe1a4b91_c009de72883a17b9_a88678923b391010_860c88a211d7ef56nat;
    let e5: nat = e4 + 1;
    lemma_multiply_step(7, e4, r4, 1, r5);
    let r6: nat = 0x52063d998d888fe4_570c21922b4181a8_6c61d11e7882308f_d3576896c255690cnat;
    let e6: nat = 2 * e5;
    lemma_square_step(7, e5, r5, 0x22945d9b45562c50_479b22ab51548814_ef43d1fd72ab026b_356d8c068be047d8nat, r6);
    let r7: nat = 0x5916396883473a3f_e3ea512d0ce104c2_651fcb47563bfcf0_610cfb84ad782956nat;
    let e7: nat = 2 * e6;
    lemma_square_step(7, e6, r6, 0x3a092cf022d7f152_aedd8f0738da37a3_e25fc447ab118b10_f1ac1d7a6f9aaf3anat, r7);
    let r8: nat = 0x2bf74d3bc6df2556_3b47001329fde936_212a5ae45bac1e97_a75ae0a5be492155nat;
    let e8: nat = e7 + 1;
    lemma_multiply_step(7, e7, r7, 5, r8);
    let r9: nat = 0x6f3343f3ce9d0da6_7009785b5fb29960_2302e4317c849f5c_76c48aeacdf48ff3nat;
    let e9: nat = 2 * e8;
    lemma_square_step(7, e8, r8, 0x10ac97bc9c42a626_9028d776506545f0_dfeb184d7e85dfb2_15e6454b64dc7646nat, r9);
    let r10: nat = 0x36ef7333dd7b7307_eceafaad0cfc05c2_332aad95387b8e8b_0f6eff4e87ea7b6anat;
    let e10: nat = 2 * e9;
    lemma_square_step(7, e9, r9, 0x6aaa3e09dcdcb141_5d41aa968c7295ad_cb1e30340ebb764f_92e2a25a5e3ee53fnat, r10);
    let r11: nat = 0x4a2d82b5973fd928_dbede68cc32960da_e68aafcdafd57619_fc53e2f001d694f6nat;
    let e11: nat = 2 * e10;
    lemma_square_step(7, e10, r10, 0x1a084b69bfadb797_6c7027cbdf7c915d_6b1a7e2d1ab6fa4a_5f1e1585a37072eenat, r11);
    let r12: nat = 0x3787f5aa7c48fafd_3699edb92f9a45e6_fed43e93cedccab9_e64b34940cde12b6nat;
    let e12: nat = e11 + 1;
    lemma_multiply_step(7, e11, r11, 4, r12);
    let r13: nat = 0x4580e7fcab655c5f_7bd2c456e0034bfd_601e6ba8ffb863a6_4bed1b8654b5754cnat;
    let e13: nat = 2 * e12;
    lemma_square_step(7, e12, r12, 0x1a999e6a54b48519_4f97dea9e2a3c910_3203e3e279d59f7b_fc0cad673050a418nat, r13);
    let r14: nat = 0x16cfba9c094f917b_95dbfe3ff98fb3d8_51de6192fe114990_137bc0b050f63510nat;
    let e14: nat = e13 + 1;
    lemma_multiply_step(7, e13, r13, 4, r14);
    let r15: nat = 0x42295551f3923d4c_99f001d791934a52_644fb8d2c2893be7_f255e5f2cebc3d38nat;
    let e15: nat = 2 * e14;
    lemma_square_step(7, e14, r14, 0x47d183d80f42b36_2716cf8fbe139d54_7711ea1493d1a701_5dc941c9370363c8nat, r15);
    let r16: nat = 0x4480af9b7b7ff903_ff0f8b5207bebb45_2d650d8f7e72eefd_fd6551a15e72eb94nat;
    let e16: nat = 2 * e15;
    lemma_square_step(7, e15, r15, 0x25c24e245c6431fc_7bcb9fe13af99628_e95bc0d7b174bf7f_8c98e9daba70d0acnat, r16);
}

/// The generator raised to a leading part of the odd cofactor.
proof fn lemma_generator_power_4()
    ensures
        fpow(7, 0x73eda753299d7nat) == 0x45a2bbad63c39915_7dcd1cd108e1032c_03cfc28c575b9621_6ab748a2cfad723anat,
{
    lemma_generator_power_3();
    let e0: nat = 0x39f6d3a994cnat;
    let r0: nat = 0x4480af9b7b7ff903_ff0f8b5207bebb45_2d650d8f7e72eefd_fd6551a15e72eb94nat;
    let r1: nat = 0x34749ad53674f8e8_bbcd2ee104e35a7f_9348f5fe0d6fef96_a0b15dff19babfa9nat;
    let e1: nat = 2 * e0;
    lemma_square_step(7, e0, r0, 0x287a85c5954a6a76_fb1c841ae60f52ac_06822b01efb2dd4c_b16d80a73ede4de7nat, r1);
    let r2: nat = 0x136745db005a5684_88eec00f0551f16d_0bc5cde95e147921_64d991fcb41b3d9cnat;
    let e2: nat = e1 + 1;
    lemma_multiply_step(7, e1, r1, 3, r2);
    let r3: nat = 0x26480b308f67bf73_f0301e8230f20f9f_679b890b14f2c890_e46cc4dc213777d2nat;
    let e3: nat = 2 * e2;
    lemma_square_step(7, e2, r2, 0x33f64a99d17a099_2866e3b270cc066f_f5e2e960780733ba_aab1cf0b4c843f3enat, r3);
    let r4: nat = 0x241cffad989b419b_2add257f435abd51_2dc5774792a6c3f8_3ef96206e88446bcnat;
    let e4: nat = e3 + 1;
    lemma_multiply_step(7, e3, r3, 2, r4);
    let r5: nat = 0x543351dac7ebc8c_6624023ed4eb983c_65856f5c5b39a5ce_d8336494959ada34nat;
    let e5: nat = 2 * e4;
    lemma_square_step(7, e4, r4, 0xb3ff1d902453dc9_13a4a9b548cf626c_0e7d736c46b14cbc_00e060a52fd07fdcnat, r5);
    let r6: nat = 0x24d673cfb77727d6_cafc0fb7d27129a6_c6a60b867e9388a7_e967c010173bf76cnat;
    let e6: nat = e5 + 1;
    lemma_multiply_step(7, e5, r5, 0, r6);
    let r7: nat = 0x1c46cd5ff042a3f2_c1942cf619821375_237cd460505b7045_093af89106c96cafnat;
    let e7: nat = 2 * e6;
    lemma_square_step(7, e6, r6, 0xbb4a576e93a7177_06365ed6c0bf0341_3c7a0d9c93dd5c55_e089f2515c2028e1nat, r7);
    let r8: nat = 0xaddb28273252241_8e132649d8d4f3e4_4104e17c30d861a1_536dc040b027da40nat;
    let e8: nat = 2 * e7;
    lemma_square_step(7, e7, r7, 0x6e5a59d1a1b94bc_9d5432066c9c693e_f089c45de0fe0d40_8996c2f25cca4561nat, r8);
    let r9: nat = 0x4c0fe1912603efca_e2860c04edd2ab3d_c7222a6555eaab69_480041c4d116f7c0nat;
    let e9: nat = e8 + 1;
    lemma_multiply_step(7, e8, r8, 0, r9);
    let r10: nat = 0x6ac06c2977cb2bd_86ae9fc9d5d30c1f_eacd60a110038a8d_39d1e81f6289fdf1nat;
    let e10: nat = 2 * e9;
    lemma_square_step(7, e9, r9, 0x31e7bee3af5a9038_71c03262da78a0fd_3d081c0c2554de62_e8298a86a23a120fnat, r10);
    let r11: nat = 0x662536cf6444f642_2a68b7fe16da9826_cd9e5d1a72a69b5d_780f9c3356b08cb9nat;
    let e11: nat = 2 * e10;
    lemma_square_step(7, e10, r10, 0x624d270548ef50_e5ad88ad26702ded_66c7986866c3d83e_92385520f527b028nat, r11);
    let r12: nat = 0x137293b8c431cc1d_f581f7c2662f18ef_a8e2b3a722981794_486d456d5ed3d909nat;
    let e12: nat = e11 + 1;
    lemma_multiply_step(7, e11, r11, 6, r12);
    let r13: nat = 0x3c6b3b722d27419b_3236d290df84692c_e0a2fa0f9fdab9b9_63e4bcb89ce8a7afnat;
    let e13: nat = 2 * e12;
    lemma_square_step(7, e12, r12, 0x3432e7b570b0b50_7f461652fbbbfe3f_405f81b349ee13ea_1038cc457bed9aa2nat, r13);
    let r14: nat = 0x4b25aa25bf3a5365_c5d239ddffb9582a_293bea645f000014_bb41290f4a5c95c6nat;
    let e14: nat = e13 + 1;
    lemma_multiply_step(7, e13, r13, 3, r14);
    let r15: nat = 0x5cc1000b0767dd12_11fd79da75dce3e5_858090f19ec2c4df_7cf59ca8d4867e09nat;
    let e15: nat = 2 * e14;
    lemma_square_step(7, e14, r14, 0x30b63fd58dc8c154_b2d05ac82d5f5ef2_a39c4e88f3700d72_eb6c9bb8a169971bnat, r15);
    let r16: nat = 0x45a2bbad63c39915_7dcd1cd108e1032c_03cfc28c575b9621_6ab748a2cfad723anat;
    let e16: nat = e15 + 1;
    lemma_multiply_step(7, e15, r15, 5, r16);
}

/// The generator raised to a leading part of the odd cofactor.
proof fn lemma_generator_power_5()
    ensures
        fpow(7, 0x39f6d3a994cebea4nat) == 0x17fc8bd7563524fe_3397dc3c76eb0776_b63ad229d44a7a4a_4782844bce28f377nat,
{
    lemma_generator_power_4();
    let e0: nat = 0x73eda753299d7nat;
    let r0: nat = 0x45a2bbad63c39915_7dcd1cd108e1032c_03cfc28c575b9621_6ab748a2cfad723anat;
    let r1: nat = 0x5443d89febb98c6f_b0a6c5f3bc4c71a2_1379644f979154a4_e79736a9b20cf76enat;
    let e1: nat = 2 * e0;
    lemma_square_step(7, e0, r0, 0x29d4235ae320d148_b45950a152384a00_f558cd9da50aa1a5_2ee2acb1af4ebdb6nat, r1);
    let r2: nat = 0xa36a7bfa1ff64a4_d46e3181f5ede353_e59d8a1e25018487_55227ea8de5ac3fdnat;
    let e2: nat = e1 + 1;
    lemma_multiply_step(7, e1, r1, 5, r2);
    let r3: nat = 0x5b82f9d3db50d8cb_3b2f2b0bc4d38183_8be679f69d6daa69_0877d631230cb60fnat;
    let e3: nat = 2 * e2;
    lemma_square_step(7, e2, r2, 0xe65b1b4b6fdb41_33766f734c929fee_3660e6e531417ce1_06ceaff20ce2b1fanat, r3);
    let r4: nat = 0x3cf0902b2f227b25_9e28f52a319f527e_309921af4e07dce4_3b46db5cf558fa64nat;
    let e4: nat = e3 + 1;
    lemma_multiply_step(7, e3, r3, 5, r4);
    let r5: nat = 0x62bd49d6a967036c_b4d14c43f3d105ba_ddcf9f1ae21a7d41_d27bf20e520a2de7nat;
    let e5: nat = 2 * e4;
    lemma_square_step(7, e4, r4, 0x2008b384ac0f9a18_5d4673765bcc8df5_fb9d15aa5f1124cc_e34fd52b2f9d4929nat, r5);
    let r6: nat = 0x4eff012f1e5f27de_1aade90f719ae408_f6d0b1b95d55e593_5c58abe4ed32006enat;
    let e6: nat = 2 * e5;
    lemma_square_step(7, e5, r5, 0x54195fcc934ee4e0_b9df71ba9bf8e5a9_f9b105e34ea82fee_bae6a131ad150603nat, r6);
    let r7: nat = 0x59426afd2e2421f1_edd9ff4bf4b4dc29_70be4c058d5fd70b_866cb3467c5e02fenat;
    let e7: nat = e6 + 1;
    lemma_multiply_step(7, e6, r6, 4, r7);
    let r8: nat = 0x1370e4a40f16dccf_4d6ff9033b5ea60b_71fe6c4fc962a295_a6f65f7d638cfb0fnat;
    let e8: nat = 2 * e7;
    lemma_square_step(7, e7, r7, 0x44b9c349a356b966_8646f9d15c3c8e89_581f3c0f214ad5c7_5e61a5cbdf03f8f5nat, r8);
    let r9: nat = 0x3a1e5384602af88e_57fc98f54be3b9d5_a2d646921ee0f1ef_881e906a711ff2e6nat;
    let e9: nat = 2 * e8;
    lemma_square_step(7, e8, r8, 0x3429ddfce532e84_e811f0af4cf66706_7f5ace46956d9160_24ec8e07b77e77fbnat, r9);
    let r10: nat = 0x3b0b52a52454540b_ce3aa69cf6548cc7_78a301f5d82b898f_b8d5f2ec17dfa447nat;
    let e10: nat = e9 + 1;
    lemma_multiply_step(7, e9, r9, 3, r10);
    let r11: nat = 0x2cadab13ccd053f7_3c2c2ea980e0e0e6_0d1ce519a1b00ed1_65297d3dac87bdf3nat;
    let e11: nat = 2 * e10;
    lemma_square_step(7, e10, r10, 0x1e127c4601e78d6a_e1a5107829e22c34_804aba3e2865cbb7_94b8e24cb2954dbenat, r11);
    let r12: nat = 0x313d0ea087372c85_6b177ec32500797b_8e39797598b3540f_bd0061b0c8e95a8cnat;
    let e12: nat = 2 * e11;
    lemma_square_step(7, e11, r11, 0x113809fdf039f188_f13f732eea527be6_a456bb13a0c778fa_b79d7b72a2515a1dnat, r12);
    let r13: nat = 0x181ee7b840e6ae85_dca6bdeaab8fff8a_ae0ddc7be5c2b91a_b5937074971b4e8anat;
    let e13: nat = 2 * e12;
    lemma_square_step(7, e12, r12, 0x14e9c64648570ad6_b74412d6344f79a3_a3b5c7816657139d_d35808421bc36e06nat, r13);
    let r14: nat = 0x34eaaeb69cb14860_d5555962a74e24c5_6ea363604854b3bb_f708133121bf25c5nat;
    let e14: nat = e13 + 1;
    lemma_multiply_step(7, e13, r13, 1, r14);
    let r15: nat = 0x2594478bbe4eecdc_5b1b5110bf1c7aaa_dc1b4cc85e418abd_ebcdbf56c3889b74nat;
    let e15: nat = 2 * e14;
    lemma_square_step(7, e14, r14, 0x18278733c1650c60_a94f18584c03a800_6c9887f1732bc728_4dbcb8ae67ffee25nat, r15);
    let r16: nat = 0x17fc8bd7563524fe_3397dc3c76eb0776_b63ad229d44a7a4a_4782844bce28f377nat;
    let e16: nat = 2 * e15;
    lemma_square_step(7, e15, r15, 0xc2e801fd020d81a_39951247f15a1b1f_d10036bc92e58be9_e8db2475737cb919nat, r16);
}

/// The generator raised to a leading part of the odd cofactor.
proof fn lemma_generator_power_6()
    ensures
        fpow(7, 0x39f_6d3a994cebea4198nat) == 0x7040d3260e7ab39_c8b22e05bcb47160_0f0c445a235eaef2_d4ad2f5d483234b8nat,
{
    lemma_generator_power_5();
    let e0: nat = 0x39f6d3a994cebea4nat;
    let r0: nat = 0x17fc8bd7563524fe_3397dc3c76eb0776_b63ad229d44a7a4a_4782844bce28f377nat;
    let r1: nat = 0x13ff117bd563bf1_b524ab85f839a133_6fa770b9ff4bfb14_1fe06b71ad1403f7nat;
    let e1: nat = 2 * e0;
    lemma_square_step(7, e0, r0, 0x4f68753ac2d789f_d90349cf5bd37136_fca22484667952c4_a7ba0002d3a71d5anat, r1);
    let r2: nat = 0xf606151c11b1949_d8abf1ef9615093e_a8b23573acea35a4_5060e5092bbf0d13nat;
    let e2: nat = 2 * e1;
    lemma_square_step(7, e1, r1, 0x372fb9e5fa61b_604f1bb7fe7f0169_6be154ae774aea86_b6c7cf2f48e8ab3enat, r2);
    let r3: nat = 0xa4c1891e9c0d2ad_620380c62e0cc665_5c87b5b56a2a75ac_00c83cc4aae9addanat;
    let e3: nat = 2 * e2;
    lemma_square_step(7, e2, r2, 0x20a1ced775c2778_d5fe4a5b658b2666_80d88d043d6f5161_cfdfab193a1b418fnat, r3);
    let r4: nat = 0x6817f4192a7e20b8_d9824fb9035edb67_de358c5baca901f9_9fc4e2889e123c40nat;
    let e4: nat = 2 * e3;
    lemma_square_step(7, e3, r3, 0xea2638eafea9c3_7064e0b7540fbc5d_9288e25c4e34b98c_8d18d4ded6d22164nat, r4);
    let r5: nat = 0x2115c0bd2fc1f55c_bf351ddeddccefb7_1d04fe6fb8a8e5d9_5e6231c2527fa5banat;
    let e5: nat = e4 + 1;
    lemma_multiply_step(7, e4, r4, 6, r5);
    let r6: nat = 0x17f5bb5399c15af4_05a327401c7dc7f3_56285a774fa278a3_2824e19ab0d0c147nat;
    let e6: nat = 2 * e5;
    lemma_square_step(7, e5, r5, 0x971323f84c53276_b5b3038399ef06f2_a5fffc350e654d0e_a4c60ffb510489ddnat, r6);
    let r7: nat = 0x33ca77f60aabff63_f43c3ab8bdce9fa2_075cd5402d72f077_19022b3bd5b548f0nat;
    let e7: nat = e6 + 1;
    lemma_multiply_step(7, e6, r6, 1, r7);
    let r8: nat = 0xb2c1f4810dad0ec_7f2f231db85f71ee_45e44f129929e090_5d31136cbcca5849nat;
    let e8: nat = 2 * e7;
    lemma_square_step(7, e7, r7, 0x172335e37c412370_6641a22226e49501_04089807a3e979cb_9c63dfa9db5d88b7nat, r8);
    let r9: nat = 0x584ef1ba41beddf2_d5817c498850f326_8ad461d77f93b6cb_1ade61735c461d00nat;
    let e9: nat = 2 * e8;
    lemma_square_step(7, e8, r8, 0x113a369c611bf25_6ed92c4eb105748a_863c8095f06bee86_e782eb904d6027d1nat, r9);
    let r10: nat = 0x383e3125f30b527f_64cd99ca2c77ef02_514639c23dbf590f_84f24b9830944869nat;
    let e10: nat = 2 * e9;
    lemma_square_step(7, e9, r9, 0x4344d558fe13419b_6a313105ab3e6b8d_d0f20e897c7ef1f9_9ffcf20aaeb4b797nat, r10);
    let r11: nat = 0x2dea62102876c9a3_27f1ac6f1a620100_3db2a846b0405b6f_a2a0112c540dfadcnat;
    let e11: nat = e10 + 1;
    lemma_multiply_step(7, e10, r10, 3, r11);
    let r12: nat = 0x28e2127f9a7b4dcd_3558988e39f8ae7b_36c895da695f150c_5029b1324f526aa4nat;
    let e12: nat = 2 * e11;
    lemma_square_step(7, e11, r11, 0x122f8a644d83e245_332fab2efd43f5d1_b3634ef5e042b034_0f66f23d80d8026cnat, r12);
    let r13: nat = 0x365332d6e624260c_0ef87bd382891553_d800d0f2e19cdb58_3123d8622b40ea7anat;
    let e13: nat = e12 + 1;
    lemma_multiply_step(7, e12, r12, 2, r13);
    let r14: nat = 0x43f48c5708a3320_1f9fb3f00cf5af7b_6dc0d3b090e3d76e_4f56dc6c694e7ea6nat;
    let e14: nat = 2 * e13;
    lemma_square_step(7, e13, r13, 0x197507cc6d53c440_2ed0092f77de84ae_3a76cbb4fc403bc9_d92a2bb4a674c37enat, r14);
    let r15: nat = 0x2caf0b9d4f82ca6b_caec9044b16b1f26_e415aff8aafeb215_13d004c7858d72b4nat;
    let e15: nat = 2 * e14;
    lemma_square_step(7, e14, r14, 0x27d59165525b48_44434cc6d8229cc5_9986f25a39b4d380_7934042e124260f0nat, r15);
    let r16: nat = 0x7040d3260e7ab39_c8b22e05bcb47160_0f0c445a235eaef2_d4ad2f5d483234b8nat;
    let e16: nat = 2 * e15;
    lemma_square_step(7, e15, r15, 0x113919bdd8178c43_cbf9dc1bd161c97b_90c6e381e303eea4_e877a5a94d7a99d8nat, r16);
}

/// The generator raised to a leading part of the odd cofactor.
proof fn lemma_generator_power_7()
    ensures
        fpow(7, 0x73eda_753299d7d483339dnat) == 0x8bff3d303e6d676_960adcac6768fa07_75a966f1cc1ef136_0f39fd9e0b5f0db1nat,
{
    lemma_generator_power_6();
    let e0: nat = 0x39f_6d3a994cebea4198nat;
    let r0: nat = 0x7040d3260e7ab39_c8b22e05bcb47160_0f0c445a235eaef2_d4ad2f5d483234b8nat;
    let r1: nat = 0x311c5c60a655ae94_7cdf422828ef19a0_6955de76f796c8a3_d0bc4b8cf95f7108nat;
    let e1: nat = e0 + 1;
    lemma_multiply_step(7, e0, r0, 0, r1);
    let r2: nat = 0x2496dac7093e66fe_8e6ebc7c91b6c91d_4b7dd2d5552163ec_632a694e827ae72bnat;
    let e2: nat = 2 * e1;
    lemma_square_step(7, e1, r1, 0x14ce09441a6f8368_16c2993f5d2ab589_2348b0a2c139caf0_637bddfd235d2915nat, r2);
    let r3: nat = 0x1844accaed79d665_7e937757e8bbcfc2_68f57bcf53ed0378_b628e127915c522bnat;
    let e3: nat = e2 + 1;
    lemma_multiply_step(7, e2, r2, 2, r3);
    let r4: nat = 0x6fc5f43a4212ba4f_6e7170a343c8c5cd_4085a3e951b91231_dc36e1d5b0d6553enat;
    let e4: nat = 2 * e3;
    lemma_square_step(7, e3, r3, 0x5148d4ca57c66d7_9e00c1eb58aa4b84_94f607ed8a57f909_08c4b19f2e713dfbnat, r4);
    let r5: nat = 0x56d7c1a4d4d2287a_d1bf0446a0b2587c_cd35a34f3c195763_05802cddd5dc54acnat;
    let e5: nat = e4 + 1;
    lemma_multiply_step(7, e4, r4, 6, r5);
    let r6: nat = 0x522be02fc3a0e586_7c8878170e9e707f_20fc26912d4da022_4f4651fc25a3e0bcnat;
    let e6: nat = 2 * e5;
    lemma_square_step(7, e5, r5, 0x410dfa6552894948_a56905cae4e25713_b02ad50fb5945573_78e4d457b5fd72d4nat, r6);
    let r7: nat = 0x512a68a8850b2d9e_cb62ff2806a4fb33_7c9ab19237a0bd40_f8bbc59225c34133nat;
    let e7: nat = 2 * e6;
    lemma_square_step(7, e6, r6, 0x3a3e7af0d3147ce0_b095ee751667b74e_62d978d38128c953_f164b54926ee48ddnat, r7);
    let r8: nat = 0x471e7f84688e36cd_5f1adac79af3a6aa_76f644e3ca4c6a5a_f9ce4dc7b206b8a5nat;
    let e8: nat = 2 * e7;
    lemma_square_step(7, e7, r7, 0x38d3b8fe7648def6_0398023b6affd1c3_c5d99384f976cb78_219acbad70463784nat, r8);
    let r9: nat = 0x221edf52356d8a7c_ccd49b5516222e93_f1c5522e881d7880_d4a42079de2f0c7fnat;
    let e9: nat = e8 + 1;
    lemma_multiply_step(7, e8, r8, 4, r9);
    let r10: nat = 0x61cd4286a0852de3_62705ab540a62eae_8cae0e04abb5763e_6e1d8a507e2529b9nat;
    let e10: nat = 2 * e9;
    lemma_square_step(7, e9, r9, 0xa0ae3f1a1ddce0d_ad23396546d4cd9a_211f20e40edb25ea_d622a5575d18fd48nat, r10);
    let r11: nat = 0x68f88d0e9390cece_b0f142cc94620eab_360e2e11b1fe6fba_02cec8387304240anat;
    let e11: nat = e10 + 1;
    lemma_multiply_step(7, e10, r10, 5, r11);
    let r12: nat = 0x709d75b3701d64f8_2888f4b015a3cb9f_e89b3adf89be9f40_3da67078ff199d53nat;
    let e12: nat = 2 * e11;
    lemma_square_step(7, e11, r11, 0x5f0c957c9633f597_8916739e4a166a57_1d56340b8533cd26_0a86df6a22493311nat, r12);
    let r13: nat = 0x5cbc4bf5171cd317_e863a0a05daf813f_65ccc40ac44032c7_af8d1354f9b34d3fnat;
    let e13: nat = e12 + 1;
    lemma_multiply_step(7, e12, r12, 6, r13);
    let r14: nat = 0x2e6144b3cf247996_6e8a710f168bdfb6_0ccd0f5b87aeef7a_dcdeccd266e3c7f3nat;
    let e14: nat = 2 * e13;
    lemma_square_step(7, e13, r13, 0x4a2ec6caecc1c5a7_0978532d2d48336f_1bd44d571c328c57_0fbcb5ed44852d8enat, r14);
    let r15: nat = 0x225f52a39ebbb025_91c8ef88a3cf8602_9672f46c8adf6150_9475ffa893e901f5nat;
    let e15: nat = 2 * e14;
    lemma_square_step(7, e14, r14, 0x128e30b641b530bc_3f13ed2cfb805f15_0f91a4f543492e59_1fec4fb94534aeb4nat, r15);
    let r16: nat = 0x8bff3d303e6d676_960adcac6768fa07_75a966f1cc1ef136_0f39fd9e0b5f0db1nat;
    let e16: nat = e15 + 1;
    lemma_multiply_step(7, e15, r15, 2, r16);
}

/// The generator raised to a leading part of the odd cofactor.
proof fn lemma_generator_power_8()
    ensures
        fpow(7, 0x1cfb69d4c_a675f520cce76020nat) == 0x2bcb270c33ad9ad0_60b04076be35c542_59ddaa350777094f_2b93ff9ecad662b8nat,
{
    lemma_generator_power_7();
    let e0: nat = 0x73eda_753299d7d483339dnat;
    let r0: nat = 0x8bff3d303e6d676_960adcac6768fa07_75a966f1cc1ef136_0f39fd9e0b5f0db1nat;
    let r1: nat = 0x311ee843cb429062_e19890aa1a2e4da2_054bd4e75213d931_6074644443300552nat;
    let e1: nat = 2 * e0;
    lemma_square_step(7, e0, r0, 0xa9101305302284_43ce4e0caaf25b1a_755597a9c58c4c43_7e2d19bf1ce96f0fnat, r1);
    let r2: nat = 0x6ffd0b343b96f823_c4b84496a4006f63_7d978a4d3e8e385b_a32ebddfd650253cnat;
    let e2: nat = e1 + 1;
    lemma_multiply_step(7, e1, r1, 2, r2);
    let r3: nat = 0x43febc17ae3df871_7017adb843369d0c_bca2f526446ff18a_198d1b71e94668aanat;
    let e3: nat = 2 * e2;
    lemma_square_step(7, e2, r2, 0x6c2eb64767df6610_324d9404b6f31446_592682e8e49fe6b8_cbac6fd3b1a3fd66nat, r3);
    let r4: nat = 0x4ba4f0606cbc7659_db4ce9317c17b20b_a7309d83ec5320de_1d5bb7e3378f6c3cnat;
    let e4: nat = 2 * e3;
    lemma_square_step(7, e3, r3, 0x27e183888d84ab05_9aeea175b656c62b_8ac19ea0e74d6db2_a4e8ecbba43324a8nat, r4);
    let r5: nat = 0x540e0e48163fb776_4ebf48c8b554e6e9_e414cf6e8947bcfc_46e201c3d86ef451nat;
    let e5: nat = 2 * e4;
    lemma_square_step(7, e4, r4, 0x315bcc815fb73737_47c6b333733c1d17_39340267aa0715a8_ed48633f085bb9bfnat, r5);
    let r6: nat = 0x40bb189fa7853177_be1b717cb5c37c23_a102d9d735e1c36d_1178da4b48d2ad7fnat;
    let e6: nat = 2 * e5;
    lemma_square_step(7, e5, r5, 0x3cf1dd43ca4247bb_4ab3c62eea75c3e7_a5cfbd8dc5e4fad1_2d6b3b9c45f3d422nat, r6);
    let r7: nat = 0x53debe734c0b6632_fc816854250df6f1_c2741c19ad2d0660_7175e730d7db1687nat;
    let e7: nat = 2 * e6;
    lemma_square_step(7, e6, r6, 0x2424cb61753f5f1a_21ab6f3139b0bdc4_e7449f890857c1a3_55550aabb215ce7anat, r7);
    let r8: nat = 0x171d26dbaea5c225_6ccd3f5f12a78df2_858a0305bf965550_4ef7a5b9e0d0b3f4nat;
    let e8: nat = 2 * e7;
    lemma_square_step(7, e7, r7, 0x3cad54fbec7e3ad3_5d64d85d6770c8d9_47193e18c1a697aa_ef64f1796e24c73dnat, r8);
    let r9: nat = 0x69eeed735d3bf637_f277747c40ae1a5a_80511d8b1546aa10_f4c2acc11956e02cnat;
    let e9: nat = 2 * e8;
    lemma_square_step(7, e8, r8, 0x49bc41581108ebd_fd203a4c6133c887_ac4c0697dfa66155_88c8175ad1a84064nat, r9);
    let r10: nat = 0x3078fae2a47ac1ac_92a89e6e9ff00180_dca6f33de6fd09ad_1cf78978e269e1e1nat;
    let e10: nat = 2 * e9;
    lemma_square_step(7, e9, r9, 0x60cccecde8c1fd52_5412aa14316ed187_7ffbd13e6a629007_91e6d3d2177325afnat, r10);
    let r11: nat = 0x6b738d8c2c205127_9c28a4f64c4c5a7b_61155eab50ee8bbd_cac4c25030e52d25nat;
    let e11: nat = e10 + 1;
    lemma_multiply_step(7, e10, r10, 2, r11);
    let r12: nat = 0x48e2cda6e30fd497_e9393eb6d5abed1f_9bfe7700d227fc00_fd90c1a38ddd0d34nat;
    let e12: nat = 2 * e11;
    lemma_square_step(7, e11, r11, 0x63982299a6691f12_bdd658464d36b75c_5c899107b291f7e4_966141b91e4afa25nat, r12);
    let r13: nat = 0x65fba48248cfa07b_0089eec1083c4d1e_155571236a010f36_cb661d0d9a84ac6enat;
    let e13: nat = 2 * e12;
    lemma_square_step(7, e12, r12, 0x2dd3149752c2cdb7_00dcb7a336ffea20_243bccf4524548cf_951000b779f1a622nat, r13);
    let r14: nat = 0x304648eccdac34fe_76394be16bf68228_5f6642f1856c9a85_b9aabda74769c100nat;
    let e14: nat = 2 * e13;
    lemma_square_step(7, e13, r13, 0x59b7141e4aa8e9de_9f5e2b05c2b25703_e292c53f9f164b10_95f5d3ff562a3e44nat, r14);
    let r15: nat = 0x32a7a6c8e4b8c1f4_94e63188df95010c_bec7747f255e3fa0_e48070ad9d54728cnat;
    let e15: nat = 2 * e14;
    lemma_square_step(7, e14, r14, 0x141a33bff53f72ed_eb07f0d9505ebc2b_89ce6ac4d165057e_1c8bbf84462c8d74nat, r15);
    let r16: nat = 0x2bcb270c33ad9ad0_60b04076be35c542_59ddaa350777094f_2b93ff9ecad662b8nat;
    let e16: nat = 2 * e15;
    lemma_square_step(7, e15, r15, 0x16223735287dee9f_f76f37c9b74cec94_890084158f32c338_f5c49bcc4c4a99d8nat, r16);
}

/// The generator raised to a leading part of the odd cofactor.
proof fn lemma_generator_power_9()
    ensures
        fpow(7, 0x1cfb69d4ca67_5f520cce76020268nat) == 0x37e1a2e8a5cf5c48_98344ddc5bca9dc6_93d9cfd0eaacca59_2fb2d8c8ccc69fbbnat,
{
    lemma_generator_power_8();
    let e0: nat = 0x1cfb69d4c_a675f520cce76020nat;
    let r0: nat = 0x2bcb270c33ad9ad0_60b04076be35c542_59ddaa350777094f_2b93ff9ecad662b8nat;
    let r1: nat = 0x21eef18e4a3f1d15_aa70186cc5cfe68c_85139026e1b50875_430ba2be0964b7ednat;
    let e1: nat = 2 * e0;
    lemma_square_step(7, e0, r0, 0x108b2bcd8c389b1c_c028265d9fb71bbf_90671e8b01f4db6b_8e947c08884cac53nat, r1);
    let r2: nat = 0x337711816f607e29_261046475a4ff7f2_677e79f0f9b16a7f_01d50f12aad72597nat;
    let e2: nat = 2 * e1;
    lemma_square_step(7, e1, r1, 0x9eec12a19e35a24_12447be247c246e8_ba7a32cefb2de0f2_799fb11a34758bd2nat, r2);
    let r3: nat = 0x16332495cf7d6135_793794ed904d345d_0f924866a3002a91_3df17eb74f6f851anat;
    let e3: nat = 2 * e2;
    lemma_square_step(7, e2, r2, 0x16d8ed49ff076c8a_6cbbad12f341e4cd_29f73720f9377621_91b7693865b779f7nat, r3);
    let r4: nat = 0x277858c582d02b2e_1d4b3a76e87a9686_194256cb7502cdf9_b19a77042c0ca3b5nat;
    let e4: nat = e3 + 1;
    lemma_multiply_step(7, e3, r3, 1, r4);
    let r5: nat = 0x31f460e8b78fed33_13843004f8722416_5b2c1c2937154fcc_884a326b315b74dcnat;
    let e5: nat = 2 * e4;
    lemma_square_step(7, e4, r4, 0xd7039c0841567b3_70d6a0089af6d677_7f30a4f6e6fa9344_a7f2133fc84c891dnat, r5);
    let r6: nat = 0x26575417f0f423ec_4f3976f136a1570a_cad2deef33148a0b_0e30a27e58816e4dnat;
    let e6: nat = 2 * e5;
    lemma_square_step(7, e5, r5, 0x1586a1c6f433c550_f8241b0af65a36bb_8735ba38210fa820_6fdbcf95293eaec3nat, r6);
    let r7: nat = 0x2d5db79b1495e728_253fef864f1abfc0_e1b4ac927d0fac8a_b28256318cabe52fnat;
    let e7: nat = 2 * e6;
    lemma_square_step(7, e6, r6, 0xcae3c7758ead3c1_cf68a820789e4d61_fc672aa4424623df_e06d4cd9bc745dfanat, r7);
    let r8: nat = 0x55b4b6973cde5788_9e4bdc9c16778e3b_84756ffb6b70ffcc_e1905b5cd8b34447nat;
    let e8: nat = e7 + 1;
    lemma_multiply_step(7, e7, r7, 2, r8);
    let r9: nat = 0x5108fbbd024cab8c_16982bb5132624a4_d7b6712386b61af3_760b17a08e72a955nat;
    let e9: nat = 2 * e8;
    lemma_square_step(7, e8, r8, 0x3f5cc978621afa72_bbf42ec64a755fb0_263981576c3ede81_e1b49883cf0d225cnat, r9);
    let r10: nat = 0x678844de69a2bbb3_d141d1d35f83a06c_970687ecaf014cac_3a4da567e522a14fnat;
    let e10: nat = e9 + 1;
    lemma_multiply_step(7, e9, r9, 4, r10);
    let r11: nat = 0x29ffc6047fdeba51_cf3c31078f34afe5_cd9bbbf39376d0cc_92235f483310aff6nat;
    let e11: nat = 2 * e10;
    lemma_square_step(7, e10, r10, 0x5c76359ccb5e4338_cd8a8b12b2374aa0_7627bcade197cf37_77d703fb618fc66bnat, r11);
    let r12: nat = 0x714f8aadda8c450_2f2248b245ffe078_6dff362e01cf1186_1eea19a016fcd2d2nat;
    let e12: nat = 2 * e11;
    lemma_square_step(7, e11, r11, 0xf37353ef1fed876_28a0489deced01b2_e6de391af2a84728_213a898464b56d92nat, r12);
    let r13: nat = 0x3192ccac0f9d5e31_49effcdfe9ff234b_01fa7b420ca97aaa_d866b360a0e9c3benat;
    let e13: nat = e12 + 1;
    lemma_multiply_step(7, e12, r12, 0, r13);
    let r14: nat = 0x37eecbdaaaa6909a_b0017869776ad1e7_3b86215c04b769c5_5a63b317e61b22f4nat;
    let e14: nat = 2 * e13;
    lemma_square_step(7, e13, r13, 0x1532db79ca983502_833c4c1b17c7041c_207cfe0473ca7656_bca3b79b7f6bde10nat, r14);
    let r15: nat = 0x6eb79e28cdee77b5_0e862e3875d23a43_2e8ac4381cb5fe2e_d3b947f57502ad87nat;
    let e15: nat = 2 * e14;
    lemma_square_step(7, e14, r14, 0x1afc7ec5a7a2c59b_669a318b88289ba2_d0d945a530494892_3ed0089a5f3b0b09nat, r15);
    let r16: nat = 0x37e1a2e8a5cf5c48_98344ddc5bca9dc6_93d9cfd0eaacca59_2fb2d8c8ccc69fbbnat;
    let e16: nat = 2 * e15;
    lemma_square_step(7, e15, r15, 0x69bd8c4d31d67c85_79a0473edaf25973_a65092198dee8384_953cbdb7c4f51d76nat, r16);
}

/// The generator raised to a leading part of the odd cofactor.
proof fn lemma_generator_power_10()
    ensures
        fpow(7, 0xe7db4ea6533afa_906673b0101343b0nat) == 0x68732d0388e373c6_5da15272d471a835_cb72a8913802ce6c_58c826650e2a352anat,
{
    lemma_generator_power_9();
    let e0: nat = 0x1cfb69d4ca67_5f520cce76020268nat;
    let r0: nat = 0x37e1a2e8a5cf5c48_98344ddc5bca9dc6_93d9cfd0eaacca59_2fb2d8c8ccc69fbbnat;
    let r1: nat = 0x588655b593b1713b_6407350d57b4cac1_bd161cc4220a3633_5796a0ff127a67b0nat;
    let e1: nat = 2 * e0;
    lemma_square_step(7, e0, r0, 0x1aefcd62dab0932a_44c16bca79bfd6b1_938c94098fe1e56f_a89b16c76e736ae9nat, r1);
    let r2: nat = 0x6ef88c7997946c04_82647cc9529f1b21_97dd97be347bb16c_6f154aac5709a098nat;
    let e2: nat = 2 * e1;
    lemma_square_step(7, e1, r1, 0x43995301e2756f52_b52e98c953a7bf68_8b2afed6216cd5bc_ecac2f7766b57868nat, r2);
    let r3: nat = 0x5139eb602b5e046e_5d645951088eadcb_309d4e216f6bb1fd_09950abc61436422nat;
    let e3: nat = e2 + 1;
    lemma_multiply_step(7, e2, r2, 6, r3);
    let r4: nat = 0x1f8f65769c03ba7_e61da7098c50b9e1_21403616badba9ba_e6bee082dcf771fenat;
    let e4: nat = 2 * e3;
    lemma_square_step(7, e3, r3, 0x38e973285bd6a545_1d32f6271858244f_b8d65e5c79079746_c8961f9277ff2286nat, r4);
    let r5: nat = 0xdcebc63e441a197_4acf9142d6351527_e8c17a9f1c01a41c_4f3823940ac41df2nat;
    let e5: nat = e4 + 1;
    lemma_multiply_step(7, e4, r4, 0, r5);
    let r6: nat = 0x31a98bb32d84891e_a33b9439ea83b830_35aa71314b3ed818_c1f34f7819af2c8anat;
    let e6: nat = 2 * e5;
    lemma_square_step(7, e5, r5, 0x1a5009118c0fc45_2dc3edbdab49ee36_f93d2049a06afb0e_73b4f126ac618c3anat, r6);
    let r7: nat = 0x73c7833feb64c546_102d5d8556565946_d02dd0530ebb30af_4da72c4ab3ca37c4nat;
    let e7: nat = e6 + 1;
    lemma_multiply_step(7, e6, r6, 2, r7);
    let r8: nat = 0x62154442b39cb291_56740224fbe1bd32_83ef2dad2921d943_ca05e70f05fd787dnat;
    let e8: nat = 2 * e7;
    lemma_square_step(7, e7, r7, 0x73a16bb91958b71e_8ca86161ef165ae0_ea16d591a13fd6cd_f182758c1f785593nat, r8);
    let r9: nat = 0x4fee84d0391bb34c_d3bc0fd48c448fdc_a5f28c0e63575555_9f5d3cacdd03b8fbnat;
    let e9: nat = 2 * e8;
    lemma_square_step(7, e8, r8, 0x52fc1b95ff0c7843_7a47a8f433c0f5e3_28a3bc117626bb96_e1920db364c3b40enat, r9);
    let r10: nat = 0x5fcf0464e94bf1f8_fd3d0eafaf588ef3_3aab4458b769e55b_5b8ca8be0b1a0ed9nat;
    let e10: nat = e9 + 1;
    lemma_multiply_step(7, e9, r9, 4, r10);
    let r11: nat = 0x6925634a3f887db7_86cc7556cd8e7fff_0d0191d2e8bc0fbf_d3a90ed30916eaf6nat;
    let e11: nat = 2 * e10;
    lemma_square_step(7, e10, r10, 0x4f2e49997b67bdc2_ed29a5951eab22fb_e2e66f61a81b4868_002e9431a1d988fbnat, r11);
    let r12: nat = 0x2873cb14c30a8053_7c3c252f651a6fd9_649924b25d2e4644_c99f67cb3fa06cb4nat;
    let e12: nat = e11 + 1;
    lemma_multiply_step(7, e11, r11, 6, r12);
    let r13: nat = 0x2497baff2f4d409e_9d42370023dc6154_f9a9400a0815992f_7c32d02b54351994nat;
    let e13: nat = 2 * e12;
    lemma_square_step(7, e12, r12, 0xe1d936fbfdbbb27_0eebcd5b1dd8c0a2_e1c5a9a9a1ed7a48_960e0c5152f344fcnat, r13);
    let r14: nat = 0x50dfe55262f7e3ee_52b477a95910713c_4d22886ca3932800_baddf4455468dc4fnat;
    let e14: nat = 2 * e13;
    lemma_square_step(7, e13, r13, 0xb8ceae28d25f2c7_a761b69d7c6eae50_6caeb6b1b70357c9_b7796880656d6141nat, r14);
    let r15: nat = 0x5513a5fb540be56c_f4626d52ab1aa23e_7aeb2152e26823ed_36e3caeca9a85d97nat;
    let e15: nat = 2 * e14;
    lemma_square_step(7, e14, r14, 0x386b9235549ee5f8_1b6c01b9c02ae318_9753c2c9e741ddb5_61f40dfaec1f82canat, r15);
    let r16: nat = 0x68732d0388e373c6_5da15272d471a835_cb72a8913802ce6c_58c826650e2a352anat;
    let e16: nat = 2 * e15;
    lemma_square_step(7, e15, r15, 0x3e6f82a4b180f222_01c9591200dff292_1fbc9bfd9fad21df_8fcd4836483cd9e7nat, r16);
}

/// The generator raised to a leading part of the odd cofactor.
proof fn lemma_generator_power_11()
    ensures
        fpow(7, 0xe_7db4ea6533afa906_673b0101343b00aanat) == 0x4483ad9886a88ec9_b0f6de4025828ff0_9617ba50cba53c86_7e67ae22799e043fnat,
{
    lemma_generator_power_10();
    let e0: nat = 0xe7db4ea6533afa_906673b0101343b0nat;
    let r0: nat = 0x68732d0388e373c6_5da15272d471a835_cb72a8913802ce6c_58c826650e2a352anat;
    let r1: nat = 0x5af4f04cfd1aab68_89f04442f1d55f46_1bb49513992bf8cd_0a4412c2064a7e1anat;
    let e1: nat = 2 * e0;
    lemma_square_step(7, e0, r0, 0x5e1ba55eec9e4ed1_5153ba532e6e3d0d_da8396bfb4d407f7_abc2e9f20e87eccanat, r1);
    let r2: nat = 0x1328337bf6ca4904_7c61efbf7adddceb_342e7df06dc9c7b4_c12d56462312063fnat;
    let e2: nat = 2 * e1;
    lemma_square_step(7, e1, r1, 0x475d3f19f33cb362_fe36159d6dfa478f_2d1a9031668d74ce_8180991d3a139465nat, r2);
    let r3: nat = 0x23b754d9338b9f5f_0517859e83f26afa_8b2f97ca4f7b0f9b_846d8a1f71d8c2abnat;
    let e3: nat = 2 * e2;
    lemma_square_step(7, e2, r2, 0x32a6a018bf74555_89f625893caa09e9_926c9ce54e661c7f_a3be6424a92a40d6nat, r3);
    let r4: nat = 0x49458f22b49a4020_e2f5002ce05a683e_570713539fed464d_54cd8d1379a1c05fnat;
    let e4: nat = 2 * e3;
    lemma_square_step(7, e3, r3, 0xb00f3932da274bc_27e69f90d8ec2834_99e3d3b1561b5023_d0c6e59490f5dddanat, r4);
    let r5: nat = 0x6578fef8125a3a12_202e9db2f3ab6ff1_94c4a0cbbf269f83_4ce7ab053f22a231nat;
    let e5: nat = 2 * e4;
    lemma_square_step(7, e4, r4, 0x2e4f96719565bb5a_257c5aa2f587bbce_9ec5b960ca888fa8_afddd83216ea0110nat, r5);
    let r6: nat = 0xebd0cd586c6a6cd_adeb3fb46fe4ff7b_1aee8d803a18349d_1a55ad2ab9f26f51nat;
    let e6: nat = e5 + 1;
    lemma_multiply_step(7, e5, r5, 6, r6);
    let r7: nat = 0x466e972d0f77d066_ac885813adc75112_b2ee0e8ed26d5327_9ba339357a1a735fnat;
    let e7: nat = 2 * e6;
    lemma_square_step(7, e6, r6, 0x1dfaf347c90ed82_57843c547b8eb932_9d7f48e01d34c09c_36a7f61a3d70e442nat, r7);
    let r8: nat = 0x10fe872c8001ea8f_d1c31f98543811f0_0eb76cad999fe351_a6ca08f7145b9a21nat;
    let e8: nat = 2 * e7;
    lemma_square_step(7, e7, r7, 0x2aca71aac545d5ef_419923bc3aba77e8_16c1d4378622c7e0_f9b026311aeee320nat, r8);
    let r9: nat = 0x3080ae4566feca6_891c052243e6a58b_134654bc3360db3c_8f863ec28e8136e6nat;
    let e9: nat = e8 + 1;
    lemma_multiply_step(7, e8, r8, 1, r9);
    let r10: nat = 0x4afa712d075402ec_0609d66677e9eaaf_77835db413a5acf2_c8ffa3e444e71e95nat;
    let e10: nat = 2 * e9;
    lemma_square_step(7, e9, r9, 0x144af37e8e9748_63bd5d24b7c396f0_d71665ccdc768d4b_c8354ae242aab80fnat, r10);
    let r11: nat = 0x3db8cfd96b99fa8c_45383d4458e4f031_2c5530b650078d1d_0aa1019504e23b40nat;
    let e11: nat = 2 * e10;
    lemma_square_step(7, e10, r10, 0x307e46dd9535505f_d75c0375da6a5a3c_befd702fbe68bdc4_290bd63357ab0779nat, r11);
    let r12: nat = 0x5444b8f8745d61fd_4adc24c6515d0948_3b1b68f33039c7ce_4a670b16222f9ebdnat;
    let e12: nat = e11 + 1;
    lemma_multiply_step(7, e11, r11, 3, r12);
    let r13: nat = 0x58f30768c66fca0b_139f170806f6c74c_28cf368dec28893c_f1a560b6ff713027nat;
    let e13: nat = 2 * e12;
    lemma_square_step(7, e12, r12, 0x3d413cffcb3a7eac_322f33f7fcbfb840_20b6c73b0fb3a36e_eb377c2ce062a762nat, r13);
    let r14: nat = 0x6a3ed5c773b8b2f9_cba4d3fc218c28f3_0a1ef7724998d539_81dca0b93ee007f8nat;
    let e14: nat = 2 * e13;
    lemma_square_step(7, e13, r13, 0x443fb9399d37dbdc_595fc9fbdfa0eeef_89d20aedf15128ab_14f664acfe9c9df9nat, r14);
    let r15: nat = 0x3025ec81305bf523_5e26bbb4b10a0e85_5066ec0e0337ac98_8d086516b82037c2nat;
    let e15: nat = e14 + 1;
    lemma_multiply_step(7, e14, r14, 6, r15);
    let r16: nat = 0x4483ad9886a88ec9_b0f6de4025828ff0_9617ba50cba53c86_7e67ae22799e043fnat;
    let e16: nat = 2 * e15;
    lemma_square_step(7, e15, r15, 0x13ff493bbcf09ef3_4b80edf62a2e800a_10a0b5f78df7f18a_aab63a2f6306eac5nat, r16);
}

/// The generator raised to a leading part of the odd cofactor.
proof fn lemma_generator_power_12()
    ensures
        fpow(7, 0x1cfb_69d4ca675f520cce_76020268760154efnat) == 0x710cbf36f7af575b_0e2e853dabbbc925_f2f1947b0563b0bf_8ec3bbfd55ec722anat,
{
    lemma_generator_power_11();
    let e0: nat = 0xe_7db4ea6533afa906_673b0101343b00aanat;
    let r0: nat = 0x4483ad9886a88ec9_b0f6de4025828ff0_9617ba50cba53c86_7e67ae22799e043fnat;
    let r1: nat = 0x4b3d6eba02527bc7_052bf73725df8cd9_c96828a52026de2c_9601ed000937d363nat;
    let e1: nat = 2 * e0;
    lemma_square_step(7, e0, r0, 0x287e0f1a3b9440b8_8b9c07d4212fbdc9_c67f4a9a6d54a098_f0d3cd66c29e341enat, r1);
    let r2: nat = 0x29a8d11fb63834e9_e5ed1f3854c27f15_af77dfd661556567_42c8e4d9c5c014bfnat;
    let e2: nat = 2 * e1;
    lemma_square_step(7, e1, r1, 0x30d515016855538c_76da3c05bc9a5d81_eefaff659147d91d_790da5b9b356438anat, r2);
    let r3: nat = 0x3bc26937a84e77d4_e3082a7a3e0dc98d_24cbd6d6a9590dd4_d37e41f668409137nat;
    let e3: nat = e2 + 1;
    lemma_multiply_step(7, e2, r2, 2, r3);
    let r4: nat = 0x352fb4bec8b334a7_b4f20f852947d6f5_062eca263b67a083_537f460d29148017nat;
    let e4: nat = 2 * e3;
    lemma_square_step(7, e3, r3, 0x1ece1d5a7fcf4cd4_067e6653d316bc69_7321893913a7b502_0db91da674cad9banat, r4);
    let r5: nat = 0x1884fb3e000df8bd_58f0e48c041158a3_300e9b029fda4f9a_487aea5f1f8f809enat;
    let e5: nat = e4 + 1;
    lemma_multiply_step(7, e4, r4, 3, r5);
    let r6: nat = 0x3ca6eddab3ddd7bd_ca812f9b0f686fb7_74a17329c0ec137a_9edaecd077ac124bnat;
    let e6: nat = 2 * e5;
    lemma_square_step(7, e5, r5, 0x52f9d6b4c2a3047_6f042028c47b0556_c4d6fff3095a9944_5cb9c143bd764f39nat, r6);
    let r7: nat = 0x4cc78b016e386e57_efdac5254ef585f4_35313a1b4679745d_57fc79b645b4800anat;
    let e7: nat = e6 + 1;
    lemma_multiply_step(7, e6, r6, 3, r7);
    let r8: nat = 0x219b15afd09efb72_06f584b318e58490_6379b4733dd3261c_1123f1de98ee1022nat;
    let e8: nat = 2 * e7;
    lemma_square_step(7, e7, r7, 0x32d9e352b0baf254_d19c4955f0b49181_bfdce36c20a1305d_b8624ce5192bf042nat, r8);
    let r9: nat = 0x56f95f227c6a197a_f1d242f49ab1a0fc_0eab1cbe2f9821d9_a6b296bd8bcf01c9nat;
    let e9: nat = 2 * e8;
    lemma_square_step(7, e8, r8, 0x9bde61bdf9fa177_7d0648a7222e0afa_7f6cfb8e5892148b_eda63b7fd46d42bbnat, r9);
    let r10: nat = 0x1d2d555196d33ff3_9c9e9c880ab22ec9_c3f995244d3120f8_8ee21f33d2a90c7anat;
    let e10: nat = e9 + 1;
    lemma_multiply_step(7, e9, r9, 5, r10);
    let r11: nat = 0x58d28bf3ee9e4e78_88aa2424750d722b_1850ab323d82fc4c_3587615f4dc19388nat;
    let e11: nat = 2 * e10;
    lemma_square_step(7, e10, r10, 0x757e5b291ad12dd_ec214fa81c979f1b_d5fe6907ed67cc76_0b8901f253ee169cnat, r11);
    let r12: nat = 0x2a1d8f0bb640b2e2_bc85c4d70334e713_07807a50ae9d1a1a_76b3a9a0204b08b3nat;
    let e12: nat = e11 + 1;
    lemma_multiply_step(7, e11, r11, 5, r12);
    let r13: nat = 0x5a733d34aeafe4b5_9027a5294d60c512_1966a5a53347cb1d_42de9b633a9b5824nat;
    let e13: nat = 2 * e12;
    lemma_square_step(7, e12, r12, 0xf4cd1c4860a36f8_07d1164e7cd88bd4_52c52dd78ccdc98e_fd5fc78c9e925505nat, r13);
    let r14: nat = 0x358267d0f6bbce8d_f0f44bf8ed7c2b64_0f1a537566fec1d1_d4163fbb9a3f68f7nat;
    let e14: nat = e13 + 1;
    lemma_multiply_step(7, e13, r13, 5, r14);
    let r15: nat = 0x73846198470dc101_c03839eb20ca1f09_fcc50f81dc31681a_821bf647e7b41050nat;
    let e15: nat = 2 * e14;
    lemma_square_step(7, e14, r14, 0x18b2d0a562941f83_7b8a1d002ec952e3_ad61ef7517b3dfea_a47cdc9118e78e01nat, r15);
    let r16: nat = 0x710cbf36f7af575b_0e2e853dabbbc925_f2f1947b0563b0bf_8ec3bbfd55ec722anat;
    let e16: nat = e15 + 1;
    lemma_multiply_step(7, e15, r15, 6, r16);
}

/// The generator raised to a leading part of the odd cofactor.
proof fn lemma_generator_power_13()
    ensures
        fpow(7, 0x1cfb69d_4ca675f520cce760_20268760154ef690nat) == 0x1016ae690a2870ba_44e2ac2a50d49fa5_dc103f8b4b8eb9b8_68f50de1ac3033banat,
{
    lemma_generator_power_12();
    let e0: nat = 0x1cfb_69d4ca675f520cce_76020268760154efnat;
    let r0: nat = 0x710cbf36f7af575b_0e2e853dabbbc925_f2f1947b0563b0bf_8ec3bbfd55ec722anat;
    let r1: nat = 0x178ea7307287f758_ff30b98f02d2131f_b6033e0799fcc5ae_330db43ba26b5faanat;
    let e1: nat = 2 * e0;
    lemma_square_step(7, e0, r0, 0x6e3e234ddd6469fa_dc9af50794f1cd13_e55922ffca5a1383_a3d63c34f1ee0f3anat, r1);
    let r2: nat = 0x2f49d42755f98e99_c84cf67e61062500_b3fbf162159723c5_200da0bc9874e3b2nat;
    let e2: nat = 2 * e1;
    lemma_square_step(7, e1, r1, 0x4c975c0d177698d_8e70a2cade5c11c9_d1cdda8c84ded0c3_41ae52edab66b932nat, r2);
    let r3: nat = 0x63297e6d0697eba4_13a70d6493e752fa_446851a897254265_e05f652a2b3239dcnat;
    let e3: nat = e2 + 1;
    lemma_multiply_step(7, e2, r2, 2, r3);
    let r4: nat = 0x15f0bf04e08148c0_80ab67b25356f0ff_0a97e072cbce888f_25c5a5e9bbf83005nat;
    let e4: nat = 2 * e3;
    lemma_square_step(7, e3, r3, 0x54d217871229b321_80286f77f4d6a7e5_86c5d12ea76abe3f_73fa5c9bd30b850bnat, r4);
    let r5: nat = 0x25a791cef9eb7ffb_5175fdd83dbebef3_f6697f2092a75feb_0867896523c95022nat;
    let e5: nat = e4 + 1;
    lemma_multiply_step(7, e4, r4, 1, r5);
    let r6: nat = 0x22b99c6539c12023_d4aef1e317df1ca5_35e0b4a74c9124e4_c9c1a3ade01d9a42nat;
    let e6: nat = 2 * e5;
    lemma_square_step(7, e5, r5, 0xc3b04e6214d5660_39dfeb5df1db476f_bdcbb060f37e40ac_e5944fa05a5baa42nat, r6);
    let r7: nat = 0x27bf30f0f9b686a7_82b3bec667cc3a70_e8479855f35fdd8c_4c6f6c1f22fd4e53nat;
    let e7: nat = 2 * e6;
    lemma_square_step(7, e6, r6, 0xa66c8b6a97b1ad6_94555618e950253d_02c2781e97dc6a36_faa51925acea2ab1nat, r7);
    let r8: nat = 0x2e5f07f080c2b404_2c76875cc351e90b_b279e253a7a256d8_170bf4dbf4ed2443nat;
    let e8: nat = e7 + 1;
    lemma_multiply_step(7, e7, r7, 2, r8);
    let r9: nat = 0x1f45a8d64e0d3e2a_109ad847294e8c6e_174dc1c1ef082a02_4707c2109911328fnat;
    let e9: nat = 2 * e8;
    lemma_square_step(7, e8, r8, 0x128c6675a88db4fc_449a75975d475aa0_fd40524efdc83b25_2e0aa057481fb6fanat, r9);
    let r10: nat = 0x27e0f33565d37759_db9996f2280cdd71_745a6c7da83838e8_e8d62212dfd2b038nat;
    let e10: nat = 2 * e9;
    lemma_square_step(7, e9, r9, 0x86f8e96febc6b0e_9f8d02cc06754daa_b9756cfd10f94616_8a6ff70ccf277ba9nat, r10);
    let r11: nat = 0x58344e37023fe968_c0336e3ecb52b78b_262a6b36360d696a_1e8154daab0ab50cnat;
    let e11: nat = 2 * e10;
    lemma_square_step(7, e10, r10, 0xdb7d2a36adaea7d_c5a77ddb68eb1403_ca532fbcedc4a266_ad6166a07a225734nat, r11);
    let r12: nat = 0x25c9dee13fabef74_4146cb8f5f19ccb3_6874ba6c7a6615eb_d58951ffad4af34fnat;
    let e12: nat = e11 + 1;
    lemma_multiply_step(7, e11, r11, 5, r12);
    let r13: nat = 0x7205e8da58b947b8_54fb19df41301b83_36f9298992018563_7fc532a8adb12dd8nat;
    let e13: nat = 2 * e12;
    lemma_square_step(7, e12, r12, 0xc515763eec5fecb_cf631cd1146dfe03_596571213186945a_2899ca0ca939e489nat, r13);
    let r14: nat = 0x70f148e52541b6f9_d3423cce28987258_5aca6b07a2fd3e9f_1d86fb15c999517enat;
    let e14: nat = 2 * e13;
    lemma_square_step(7, e13, r13, 0x70262e760fdec988_701a813f9d65b170_975b5435ae338c1f_f882d7c2934c54c2nat, r14);
    let r15: nat = 0xdbac8c795a2afb2_8b99897c440e8b5d_598124fc7949ae6c_9e22672d26f8266fnat;
    let e15: nat = 2 * e14;
    lemma_square_step(7, e14, r14, 0x6e089a4d14433d72_05582accb59b0863_d49874dab2345caf_cd10fcde3794d395nat, r15);
    let r16: nat = 0x1016ae690a2870ba_44e2ac2a50d49fa5_dc103f8b4b8eb9b8_68f50de1ac3033banat;
    let e16: nat = 2 * e15;
    lemma_square_step(7, e15, r15, 0x1a04352e70f6f10_c716b9d263461507_f95bbb506d5fde82_fd45537ec4a4f067nat, r16);
}

/// The generator raised to a leading part of the odd cofactor.
proof fn lemma_generator_power_14()
    ensures
        fpow(7, 0xe7db4ea65_33afa906673b0101_343b00aa77b4805enat) == 0x705f01a87f2bfffc_9904755e648a6527_2d3da1d0b5410d9b_5d1b0b91f36ff5ccnat,
{
    lemma_generator_power_13();
    let e0: nat = 0x1cfb69d_4ca675f520cce760_20268760154ef690nat;
    let r0: nat = 0x1016ae690a2870ba_44e2ac2a50d49fa5_dc103f8b4b8eb9b8_68f50de1ac3033banat;
    let r1: nat = 0x44633f1c72e20230_f2968c9799080229_e5a16bb0b6923b1e_16c87be82ae52f78nat;
    let e1: nat = 2 * e0;
    lemma_square_step(7, e0, r0, 0x23b97c723d27f51_2c187ed800830e46_14710ce3f7d99ff2_4656974d354e73acnat, r1);
    let r2: nat = 0x2d1d0806a50217f1_88a447c5a10d86ef_7e939527c36ef0f5_54b0ff7f193b6536nat;
    let e2: nat = 2 * e1;
    lemma_square_step(7, e1, r1, 0x2857c288fb3e6854_adebb8e303e0787d_0a508ad27b275e09_b5443dcc3c41e30anat, r2);
    let r3: nat = 0x684594ecbac2d167_caca9e34c14f0907_b6772b421f748baf_79d2bcc0db4cbad3nat;
    let e3: nat = 2 * e2;
    lemma_square_step(7, e2, r2, 0x118e4b79e26736e9_50377d89cdd650eb_b9cfa049298634a2_ff14d6f07f9aec91nat, r3);
    let r4: nat = 0x1d531305e1e47ddd_14ebdf51098546ff_107bd8010a37fada_8dbdd3cedded2372nat;
    let e4: nat = 2 * e3;
    lemma_square_step(7, e3, r3, 0x5dc98e814b199321_aeb13698df10ba99_3890d7a051f2f1c3_657ad5cc99b22677nat, r4);
    let r5: nat = 0x351f909222ab5ee5_a3a195dea3a2abd0_574e910beeb9c3f7_bf37cc6ba0e8f552nat;
    let e5: nat = 2 * e4;
    lemma_square_step(7, e4, r4, 0x76af156fa96279e_453bf741ead6d269_dfffd6b42d3f252e_d6a5df5bd9136972nat, r5);
    let r6: nat = 0x1813fe0575d7206e_dfbd90fe5c8d2aa2_67ed0b4a871947c9_3a8696f4665eb53bnat;
    let e6: nat = e5 + 1;
    lemma_multiply_step(7, e5, r5, 3, r6);
    let r7: nat = 0x642204ee4ca6c65e_eea92f8fd64b3476_01251f57d4a8f480_9e468daed437b4canat;
    let e7: nat = 2 * e6;
    lemma_square_step(7, e6, r6, 0x5003fde29b2c703_a718640a96f026c6_49188879c9b2968f_e8c0710cc768c6cfnat, r7);
    let r8: nat = 0x6dae68bde5a1f229_4d33e5ca88c0b19d_7b389fd258ef2ea9_514dcccea7fa4d8cnat;
    let e8: nat = 2 * e7;
    lemma_square_step(7, e7, r7, 0x567d5663626eacae_1e9414d6bac675a4_76ea757073fb7728_84752b2f167e61d8nat, r8);
    let r9: nat = 0x4832f13e4dbcaf6f_e91038598379cb2e_681a86ae6e941ea7_392099ac97d81ecenat;
    let e9: nat = e8 + 1;
    lemma_multiply_step(7, e8, r8, 6, r9);
    let r10: nat = 0x4b55604a306c2faa_575dbb087cbc7cfa_f58e12bec39615f3_192d299af70c1d84nat;
    let e10: nat = 2 * e9;
    lemma_square_step(7, e9, r9, 0x2cf6fd4dc59db188_0629ff7047b36d15_d42aed94e6a81aed_1be7f2400c48d040nat, r10);
    let r11: nat = 0x3f9f04baac7f5887_96a8bd1b42a00ac7_67ebf32b592129a9_b03c2340c154ce98nat;
    let e11: nat = e10 + 1;
    lemma_multiply_step(7, e10, r10, 4, r11);
    let r12: nat = 0x5544762ff4a88583_7d9cc46bdd79fac2_6569b6bd211cc2ae_7c4fc00f5105dfa8nat;
    let e12: nat = 2 * e11;
    lemma_square_step(7, e11, r11, 0x22ea45e503a010ba_d9b5d3f4bc50911d_5b09ebc2a5a05fcb_e149322219731a98nat, r12);
    let r13: nat = 0x113af6afe088342f_6f2826cade2ca336_232fcb1ce7d186ca_662e407037291d93nat;
    let e13: nat = e12 + 1;
    lemma_multiply_step(7, e12, r12, 5, r13);
    let r14: nat = 0x980c0bcb2fec42d_c197323764ba281f_5190ffef6e68118d_8f783a4c5b485e8dnat;
    let e14: nat = 2 * e13;
    lemma_square_step(7, e13, r13, 0x28f98ffd0671ec4_ffe0e35e42b4c804_c7d8d57edbbeb0e6_5f3a1b7f4b3843dcnat, r14);
    let r15: nat = 0x42854528e4f75d40_4b225f83c11718db_3af6ff8c04d87ade_ec4998167efa95dbnat;
    let e15: nat = e14 + 1;
    lemma_multiply_step(7, e14, r14, 0, r15);
    let r16: nat = 0x705f01a87f2bfffc_9904755e648a6527_2d3da1d0b5410d9b_5d1b0b91f36ff5ccnat;
    let e16: nat = 2 * e15;
    lemma_square_step(7, e15, r15, 0x262b875474c1b26c_a63858bf2068a857_8055d4763375e02a_2dd11a6ba804b38dnat, r16);
}

/// The generator raised to a leading part of the odd cofactor.
proof fn lemma_generator_power_15()
    ensures
        fpow(7, 0xe7db4ea6533_afa906673b010134_3b00aa77b4805ffenat) == 0x17a12c55bc4d5e92_a7911945da5ed32d_99ea58b53c24a8c7_8acdec88bd97a05enat,
{
    lemma_generator_power_14();
    let e0: nat = 0xe7db4ea65_33afa906673b0101_343b00aa77b4805enat;
    let r0: nat = 0x705f01a87f2bfffc_9904755e648a6527_2d3da1d0b5410d9b_5d1b0b91f36ff5ccnat;
    let r1: nat = 0x5b071fa880831036_fbc4256485fdb3f2_463d94a2f4d13745_8bbd5103a80fb88enat;
    let e1: nat = e0 + 1;
    lemma_multiply_step(7, e0, r0, 6, r1);
    let r2: nat = 0x62dc8733bd52f866_70f953db99e4052a_fb83dade1759928e_5c7963d39414b49enat;
    let e2: nat = 2 * e1;
    lemma_square_step(7, e1, r1, 0x4779cb18270b9f18_a0fa0d2b069f7782_5539484b0720b303_9c4b28d7f19bba26nat, r2);
    let r3: nat = 0x70636dca5d315864_16b012d90512ec12_3de6c803a37b35e9_8751bace0c90f04dnat;
    let e3: nat = e2 + 1;
    lemma_multiply_step(7, e2, r2, 5, r3);
    let r4: nat = 0x246b5c5909f4b061_42a78a8055de9c1d_ff9f5a22fe5cc51e_35032b91b0ce1d26nat;
    let e4: nat = 2 * e3;
    lemma_square_step(7, e3, r3, 0x6cf4e050f221fafe_70334a2c505244fd_b2aff086b0246746_a829b6f3bf625a03nat, r4);
    let r5: nat = 0x171437c8f275d818_6c21197245d294c7_55e02eeef48cabd5_731630fdd5a2cc08nat;
    let e5: nat = e4 + 1;
    lemma_multiply_step(7, e4, r4, 2, r5);
    let r6: nat = 0x43de8fd36d342f87_60ea9a52e06928e0_7283892e550ff94b_f763c3677d2abc19nat;
    let e6: nat = 2 * e5;
    lemma_square_step(7, e5, r5, 0x49834c6a1dacbd7_85fd43b2109c90df_d5d0be7dce9e3add_fc20d79baf920427nat, r6);
    let r7: nat = 0xb5f517b55f75792_d982d823fc58be0d_d2a2303853766117_c3ba57d86c2b24abnat;
    let e7: nat = e6 + 1;
    lemma_multiply_step(7, e6, r6, 4, r7);
    let r8: nat = 0x19faca9ebee8eccc_88c5958a6cda7186_836cd513b3509eef_835af325fe8376e1nat;
    let e8: nat = 2 * e7;
    lemma_square_step(7, e7, r7, 0x11d98301d853d89_1d8ce9c965c53177_83f8f07d63f36323_f0bea8f7a02f1358nat, r8);
    let r9: nat = 0x41ede3040ec0fc4f_8a2d3ec0f05742a8_443c2f86e735fc8d_977ca60af5984026nat;
    let e9: nat = e8 + 1;
    lemma_multiply_step(7, e8, r8, 1, r9);
    let r10: nat = 0x54f84b927df1b9bc_d9b7ff13a58548d7_b642376f9b742791_fc82a8cd857d06f4nat;
    let e10: nat = 2 * e9;
    lemma_square_step(7, e9, r9, 0x257e9226229957b8_188597ea070a9aa9_f6d3d6940c98354d_feb6662f73b5feb0nat, r10);
    let r11: nat = 0xf25cc61a188a1c0_f3e6c161567bc5cb_591b4ffe40354902_e7929da3a66b30a7nat;
    let e11: nat = e10 + 1;
    lemma_multiply_step(7, e10, r10, 5, r11);
    let r12: nat = 0x25c77522b11e28cf_29321a3451e1a190_4b1368c2f1aba815_3e637b22f466f1fbnat;
    let e12: nat = 2 * e11;
    lemma_square_step(7, e11, r11, 0x1fab03517a5ae05_ad45c32c55921809_462af226468c0cc1_c8e69a7754721af6nat, r12);
    let r13: nat = 0x2098e54c84982319_b9eb075e29e7bae7_660c954e9bb4e096_b4b85df6aed09ddbnat;
    let e13: nat = e12 + 1;
    lemma_multiply_step(7, e12, r12, 2, r13);
    let r14: nat = 0x25f143129a74fea8_ea1bb54e8735f422_ae015f2763d4817d_825ba36cab4400ecnat;
    let e14: nat = 2 * e13;
    lemma_square_step(7, e13, r13, 0x92a74870fc753fb_848bc23e1ec748dd_d8d140f8ae362ea5_5167747aedf2586dnat, r14);
    let r15: nat = 0x21bd86dbe5f7fc0e_004e45159f35fce8_1a8e520dbad2d270_908177faaedc0672nat;
    let e15: nat = e14 + 1;
    lemma_multiply_step(7, e14, r14, 2, r15);
    let r16: nat = 0x17a12c55bc4d5e92_a7911945da5ed32d_99ea58b53c24a8c7_8acdec88bd97a05enat;
    let e16: nat = 2 * e15;
    lemma_square_step(7, e15, r15, 0x9d1e842adebe45e_cd0d7bd0cb31a758_0f3ec8aea26670cb_0dc266634e81ea66nat, r16);
}

/// The generator raised to a leading part of the odd cofactor.
proof fn lemma_generator_power_16()
    ensures
        fpow(7, 0x39f6d3a994cebe_a4199cec0404d0ec_02a9ded2017fff2cnat) == 0x2bd3a581a0630c12_ece7818164b77680_20c0dee36f78b3cf_6f7f712d819f9370nat,
{
    lemma_generator_power_15();
    let e0: nat = 0xe7db4ea6533_afa906673b010134_3b00aa77b4805ffenat;
    let r0: nat = 0x17a12c55bc4d5e92_a7911945da5ed32d_99ea58b53c24a8c7_8acdec88bd97a05enat;
    let r1: nat = 0x317a8f04fc8018ba_61bdd8e0eef5ee39_e1aac8f1a5024175_cba177be2f256291nat;
    let e1: nat = e0 + 1;
    lemma_multiply_step(7, e0, r0, 1, r1);
    let r2: nat = 0x5642808399eee650_ce33dba5e0f7a5a4_f4938207f2226d17_565a85865ee1622bnat;
    let e2: nat = 2 * e1;
    lemma_square_step(7, e1, r1, 0x151e25347693ca16_604251c0d3c5054a_557961adcc691931_e2d34b5282fbf3f6nat, r2);
    let r3: nat = 0x182d3ef96574d9cc_a349c960f69c4f68_0d545a289ef92fa8_5c79a6b19829af28nat;
    let e3: nat = e2 + 1;
    lemma_multiply_step(7, e2, r2, 5, r3);
    let r4: nat = 0x2aa3291f54b48672_455a6893f86cbf2c_1a135773195d7c5f_67c6a9228506debbnat;
    let e4: nat = 2 * e3;
    lemma_square_step(7, e3, r3, 0x50ac2e2cc52d404_6956a027159925f9_7d48ef2e696287f7_4ce7ca7b8da0d785nat, r4);
    let r5: nat = 0x429ad134fdb4b28f_7f052bfbb7b58a2a_0f0c1c1fb191ae9d_d66e9ff3a330171bnat;
    let e5: nat = e4 + 1;
    lemma_multiply_step(7, e4, r4, 2, r5);
    let r6: nat = 0x30ebca57f0c936b3_6127e7fb1af82e78_f568d02a8fa14586_6f7df5a8821896a6nat;
    let e6: nat = 2 * e5;
    lemma_square_step(7, e5, r5, 0x264445a3138d3b25_42099357babe96d6_33dc82d04aa0e696_0dd8fe418c1d4633nat, r6);
    let r7: nat = 0x23bbcc9da65d400f_76ea7acde128db77_0f2b998030c205db_3e75a11b1bd62950nat;
    let e7: nat = 2 * e6;
    lemma_square_step(7, e6, r6, 0x14a4f6bdfb8b1ed7_7a03dafb2c2b41d1_1150073b404fb74b_fa539a7613f0ca54nat, r7);
    let r8: nat = 0x348df8982ee3ae2a_d7c258f4e202a918_0a872072fb406dd9_7bc67a7af0707eaanat;
    let e8: nat = 2 * e7;
    lemma_square_step(7, e7, r7, 0xb03b48261ba733d_05bda567c2621ae5_d257af7d4adaf39e_517df69b07fa3a56nat, r8);
    let r9: nat = 0x1418d62fcb614b53_4ca2e69a112d1798_4e78f71bdec7ecf5_626d595f931376a3nat;
    let e9: nat = e8 + 1;
    lemma_multiply_step(7, e8, r8, 3, r9);
    let r10: nat = 0x37b070aaf746e993_3a4a8dd7aafcaeb0_ef112f81dfe0616b_096846eae8f5107dnat;
    let e10: nat = 2 * e9;
    lemma_square_step(7, e9, r9, 0x37be51046977ee8_47b189ad36a674b8_e04283ed54c5564d_eb0c13151c379b4cnat, r10);
    let r11: nat = 0x130159a2fe1d402e_6a882869f432e283_a7af00b35670f983_8bcb76704cde0d68nat;
    let e11: nat = 2 * e10;
    lemma_square_step(7, e10, r10, 0x1ac0748f6ba53e29_6cb154a55939c48b_4c600578f8e14006_303bf22fd373cfa1nat, r11);
    let r12: nat = 0x111bcc21c92f43fc_b67f42dda3c25994_420b60e45d187699_d2903d131a125dd7nat;
    let e12: nat = e11 + 1;
    lemma_multiply_step(7, e11, r11, 1, r12);
    let r13: nat = 0x30d8349b9267e21b_489ff67572882a8b_04f04d0587c6afbc_769293367bbbe39fnat;
    let e13: nat = 2 * e12;
    lemma_square_step(7, e12, r12, 0x2865dafce83e8e1_3e6df5ee00b00b46_ecd6f5d4606de4b1_fe4d940684e606f2nat, r13);
    let r14: nat = 0x6e0e219aad9c342e_95ec0d260e7579c2_7b16d320b6721629_3e02067f62233957nat;
    let e14: nat = e13 + 1;
    lemma_multiply_step(7, e13, r13, 2, r14);
    let r15: nat = 0x7314bc6a15c6a81c_7bb432a41d869f16_16f26f5b686b1afb_825a64400e143dcbnat;
    let e15: nat = 2 * e14;
    lemma_square_step(7, e14, r14, 0x687ac7af3ca3410f_9c133ca9bc09591c_52901dfd421cab8e_fad12e97488d9dc6nat, r15);
    let r16: nat = 0x2bd3a581a0630c12_ece7818164b77680_20c0dee36f78b3cf_6f7f712d819f9370nat;
    let e16: nat = 2 * e15;
    lemma_square_step(7, e15, r15, 0x723d6762dd30e5eb_726565634e9cad09_a6de8caf056ae407_736b10376902cb89nat, r16);
}

/// The generator raised to a leading part of the odd cofactor.
proof fn lemma_generator_power_17()
    ensures
        fpow(7, 0x39f6d3a994cebea4_199cec0404d0ec02_a9ded2017fff2dfenat) == 0x122e034831bb7805_90014889eaa0741d_3c40409a4a4dd48d_1ac16a66294c7968nat,
{
    lemma_generator_power_16();
    let e0: nat = 0x39f6d3a994cebe_a4199cec0404d0ec_02a9ded2017fff2cnat;
    let r0: nat = 0x2bd3a581a0630c12_ece7818164b77680_20c0dee36f78b3cf_6f7f712d819f9370nat;
    let r1: nat = 0x4aee37e50f7a59f4_13e0da79adc08d76_3dcad0320c5032ae_0c7c18408b5d080enat;
    let e1: nat = e0 + 1;
    lemma_multiply_step(7, e0, r0, 2, r1);
    let r2: nat = 0x639346b27f4cc8f0_3ec36363b68aa880_faf724b500340129_b5449835bb53d0a0nat;
    let e2: nat = 2 * e1;
    lemma_square_step(7, e1, r1, 0x306e785740c27a00_fd6da0739ae4d751_b801567148e9b6c7_2749477c53191024nat, r2);
    let r3: nat = 0x17502ee81688ee0_83fca789c3ff8b66_e65028e10175e029_f4e0297e1f4ab45anat;
    let e3: nat = e2 + 1;
    lemma_multiply_step(7, e2, r2, 6, r3);
    let r4: nat = 0x1fbf40078863dc18_38a45b419fc439ef_e4d674ea23caa935_f64bc432d20ae1c2nat;
    let e4: nat = 2 * e3;
    lemma_square_step(7, e3, r3, 0x4b033fc90dc94_38db4bc01bd5575c_377cc5ba094f93f1_b36193c1bd0bcde2nat, r4);
    let r5: nat = 0x6a4d18e1911d8761_5944a6c354bbbd89_ee1f8e63fa8c447a_bc125d64be4c2c4dnat;
    let e5: nat = e4 + 1;
    lemma_multiply_step(7, e4, r4, 1, r5);
    let r6: nat = 0x6abe1b6cc1d24df5_0bc36bb36f0bc5cf_27a136e8558ff767_e0029ac412f7ea37nat;
    let e6: nat = 2 * e5;
    lemma_square_step(7, e5, r5, 0x61793534f1598750_c8e841e14ea985d8_953c770badf39560_9263c0c28e6aa4f2nat, r6);
    let r7: nat = 0x33a0d406530f3202_1efce1b7cf87588a_1ef6a84856f99bdd_20123b6284c7677bnat;
    let e7: nat = e6 + 1;
    lemma_multiply_step(7, e6, r6, 6, r7);
    let r8: nat = 0x4a94896b5910f375_49d1688472e548d1_c93a2a243d8418e2_1fb01a1c57cc500dnat;
    let e8: nat = 2 * e7;
    lemma_square_step(7, e7, r7, 0x16fe10357b573d09_10a04fcbde8b1f2d_7ca6d2adab5022b3_9019f5248b41e50cnat, r8);
    let r9: nat = 0x3a5924a2c900b314_37d27b7efdbd9da7_31a096f1aea33e32_ddd0b6ca66963057nat;
    let e9: nat = e8 + 1;
    lemma_multiply_step(7, e8, r8, 4, r9);
    let r10: nat = 0x57b4c76b472be77a_3820959821fd68fc_7931549c34cb6bfc_49cb7c9ba8495ae8nat;
    let e10: nat = 2 * e9;
    lemma_square_step(7, e9, r9, 0x1d5e0e2f411742da_b03361813425698d_76b55dafe882980c_6f3be9fb5acb62a9nat, r10);
    let r11: nat = 0x224d2f4f221fe1ee_88c2df00bdc4a6cc_ada51c36719827eb_049068469a017c53nat;
    let e11: nat = e10 + 1;
    lemma_multiply_step(7, e10, r10, 5, r11);
    let r12: nat = 0x3c5bca64ac227a11_4b9c97f662de9d00_afa169cfc37ce475_2c0840a96f734208nat;
    let e12: nat = 2 * e11;
    lemma_square_step(7, e11, r11, 0xa26397860b01bab_c33438b966bbf7ae_964de9c7f3ce0027_b5643731a19340e1nat, r12);
    let r13: nat = 0x4ab992c73818dea0_779a9fa49730c2f4_d230f8a5586f2b37_3439c4a50c26ce35nat;
    let e13: nat = e12 + 1;
    lemma_multiply_step(7, e12, r12, 3, r13);
    let r14: nat = 0x5667d61e03a856f8_c7fde394e74f1465_b9d2d54ca0175523_d47ad2a03d8fc9ebnat;
    let e14: nat = 2 * e13;
    lemma_square_step(7, e13, r13, 0x302a8251844b93ef_bc55ca3736e94057_7177edb402bd46b8_35bf5bf698458d0enat, r14);
    let r15: nat = 0x193296324986ee64_77d000ea230056ad_720fa10960ab87ff_cf5bc266aeee8568nat;
    let e15: nat = e14 + 1;
    lemma_multiply_step(7, e14, r14, 5, r15);
    let r16: nat = 0x122e034831bb7805_90014889eaa0741d_3c40409a4a4dd48d_1ac16a66294c7968nat;
    let e16: nat = 2 * e15;
    lemma_square_step(7, e15, r15, 0x57a113d2568a8ee_fe060572524dc1bd_cf0a43e2d2990604_d69460e78998c0d8nat, r16);
}

/// The generator raised to a leading part of the odd cofactor.
proof fn lemma_generator_power_18()
    ensures
        fpow(7, 0x39_f6d3a994cebea419_9cec0404d0ec02a9_ded2017fff2dff7fnat) == 0x6146002a548181ba_9f59101feae3c60e_dc1db4abe282131d_1912073d593fc337nat,
{
    lemma_generator_power_17();
    let e0: nat = 0x39f6d3a994cebea4_199cec0404d0ec02_a9ded2017fff2dfenat;
    let r0: nat = 0x122e034831bb7805_90014889eaa0741d_3c40409a4a4dd48d_1ac16a66294c7968nat;
    let r1: nat = 0xb546fa63282cade_bccf23bd60c154c7_52042035082273dc_bb49e8cc211751d7nat;
    let e1: nat = e0 + 1;
    lemma_multiply_step(7, e0, r0, 1, r1);
    let r2: nat = 0x13d6133ca5939efe_4f733b3ab030ffe4_ad598e650469f588_2b458efb2a36865cnat;
    let e2: nat = 2 * e1;
    lemma_square_step(7, e1, r1, 0x11b76a3e976b4da_0aae289648e967bb_e521e9d969d46eeb_b3b4d11b12953c35nat, r2);
    let r3: nat = 0x4582250bbd49f8a2_b8427b99fc4cf750_707188b4a7b46e1a_7b4df70e38e2e1banat;
    let e3: nat = 2 * e2;
    lemma_square_step(7, e2, r2, 0x364e5d488d2d959_6deed7a91f0d123a_9e5460d9b792cf26_11ab1062ec718f56nat, r3);
    let r4: nat = 0x16d86605868fd752_3cea0115bf93631d_c4242ce495f592bd_5f21c1678e342c12nat;
    let e4: nat = e3 + 1;
    lemma_multiply_step(7, e3, r3, 4, r4);
    let r5: nat = 0x4e78eabf3b46e60a_dbf51451ed9a027d_66b6564b0fddcf4f_7fba41538650c3adnat;
    let e5: nat = 2 * e4;
    lemma_square_step(7, e4, r4, 0x480825315c46fc3_48bb87a9c7a892a0_2779df958d8b5798_00ebb24560956d97nat, r5);
    let r6: nat = 0x5597cdedf87a552b_36cc2e1d58aeb158_8005cc016f173b30_7e17c94cac3559b7nat;
    let e6: nat = e5 + 1;
    lemma_multiply_step(7, e5, r5, 4, r6);
    let r7: nat = 0xe8ad3bd1fed79c0_0351564d015d98cf_4bfeb4f3fcdcc205_545f2d1f602b4eaenat;
    let e7: nat = 2 * e6;
    lemma_square_step(7, e6, r6, 0x3f32120cb2de0069_d1d84e1d7180a16d_018bbb0f0d37b15e_35f4a357cd0b7223nat, r7);
    let r8: nat = 0x65cbca2bdf7e5440_17395c1b098f2dab_13f6f2abea094e25_4e9a3bdba12f26c2nat;
    let e8: nat = e7 + 1;
    lemma_multiply_step(7, e7, r7, 0, r8);
    let r9: nat = 0x5e0a644509d1141b_774144c9911ac031_1558b1410704468f_f1e0fa61e7fd1d42nat;
    let e9: nat = 2 * e8;
    lemma_square_step(7, e8, r8, 0x5962f674040095fa_ac9881ede574d168_8f93407dcaae4313_2caa26bb5d1d0dc2nat, r9);
    let r10: nat = 0x4ea4794374a41a57_42a7a95ac792093c_f2b8a4b8312621f4_9d26d8b257ebccc9nat;
    let e10: nat = e9 + 1;
    lemma_multiply_step(7, e9, r9, 5, r10);
    let r11: nat = 0x691bbb06a23d3001_4d864484be80e375_4a339a960b0083e4_f7d2eeeb076325ccnat;
    let e11: nat = 2 * e10;
    lemma_square_step(7, e10, r10, 0x35594bbf6c65048f_1e4b4847873196c4_bddd7a80f4e36c13_dcfaf7003373d005nat, r11);
    let r12: nat = 0x2830313b75fb6057_eb50cf70fbbb2815_10f762084d0d7348_c6c4887333b6088enat;
    let e12: nat = e11 + 1;
    lemma_multiply_step(7, e11, r11, 6, r12);
    let r13: nat = 0x71e6c8a6ddf24185_e66b6327a2889484_5296cc5684202ea5_3256f2de0f7ccdb6nat;
    let e13: nat = 2 * e12;
    lemma_square_step(7, e12, r12, 0xdee8d5da2c6a0a3_1662a5b5c78ce81b_760dff1b9a50f3a7_26e2069caeb4610enat, r13);
    let r14: nat = 0x65bd909d17eedaf8_1994a5e537f0ff7e_4badbe4b9ceb1e8a_6060a4186c699ff4nat;
    let e14: nat = e13 + 1;
    lemma_multiply_step(7, e13, r13, 6, r14);
    let r15: nat = 0x5024167eb6235a1f_589b7dc0027d0572_e1952e63697f5bdf_0394dc75e82dae2dnat;
    let e15: nat = 2 * e14;
    lemma_square_step(7, e14, r14, 0x5949fcef061e256d_6cb236549a87754b_af17216811ba3836_5bfe5e3791eb5263nat, r15);
    let r16: nat = 0x6146002a548181ba_9f59101feae3c60e_dc1db4abe282131d_1912073d593fc337nat;
    let e16: nat = e15 + 1;
    lemma_multiply_step(7, e15, r15, 4, r16);
}

/// The generator raised to a leading part of the odd cofactor.
proof fn lemma_generator_power_19()
    ensures
        fpow(7, 0x39f6_d3a994cebea4199c_ec0404d0ec02a9de_d2017fff2dff7fffnat) == 0x182377ca97afa6d4_766e11644a6d6185_07ee022ddfab9633_bd5b568acb513b7dnat,
{
    lemma_generator_power_18();
    let e0: nat = 0x39_f6d3a994cebea419_9cec0404d0ec02a9_ded2017fff2dff7fnat;
    let r0: nat = 0x6146002a548181ba_9f59101feae3c60e_dc1db4abe282131d_1912073d593fc337nat;
    let r1: nat = 0x671b1629de67f2e1_034ec961ac8255b6_790ed18488f6a6ca_25c0f5bdfaa377b0nat;
    let e1: nat = 2 * e0;
    lemma_square_step(7, e0, r0, 0x519ed56bdf59eb3f_aeba5a8e4df49476_5b000b0e37c282b1_1d73d836ed4b5e21nat, r1);
    let r2: nat = 0x1a2baf321b26b475_e3cc717b7dc547dd_58f5e28dbec8678d_0846b837da7845canat;
    let e2: nat = e1 + 1;
    lemma_multiply_step(7, e1, r1, 6, r2);
    let r3: nat = 0x3dcf9e47465a671_b90b37975b877d60_38a53eda501e71e0_dfd5578b276254ebnat;
    let e3: nat = 2 * e2;
    lemma_square_step(7, e2, r2, 0x5e87180d29fe931_6fa14e2b18e4dd4f_0ef55ef8cc454492_ca18431761042e79nat, r3);
    let r4: nat = 0x1b0ad53f2ec78d1c_0f4e852380b46da1_8c84b7f830d51d26_1ed564ce13b0526dnat;
    let e4: nat = e3 + 1;
    lemma_multiply_step(7, e3, r3, 0, r4);
    let r5: nat = 0x4002fbee9cba6ece_1c7d58580f61b58c_4c95199d2f8586fb_2e19191796a30053nat;
    let e5: nat = 2 * e4;
    lemma_square_step(7, e4, r4, 0x64edf461283c5a6_3e671afa9c071f32_7fc22931600dd78f_00bd5e1807c70216nat, r5);
    let r6: nat = 0x644bed8ccc408fca_2dbfe2504ec66ec6_1cdac7434cab9ce1_42afafa81e750242nat;
    let e6: nat = e5 + 1;
    lemma_multiply_step(7, e5, r5, 3, r6);
    let r7: nat = 0x1fa495dae142327e_2b8d244f9090f588_37dfc8771255b37e_f47cda5ccc6118f2nat;
    let e7: nat = 2 * e6;
    lemma_square_step(7, e6, r6, 0x56c5cb305b289b3f_abcb04fdbc857378_ba28c0280e6f781d_dbfffa57bbf80012nat, r7);
    let r8: nat = 0x699271a8ff31e42a_fda22624ea54deb4_3360d73e80598c79_af69f88a96a7ae9dnat;
    let e8: nat = e7 + 1;
    lemma_multiply_step(7, e7, r7, 1, r8);
    let r9: nat = 0x1f1770b677b36abf_c49fee9dfc43c773_5aeb60ba59cef6a9_7374dd01bc273b49nat;
    let e9: nat = 2 * e8;
    lemma_square_step(7, e8, r8, 0x60241386f61bd281_e6d3041cc0ed9501_3ee98523625b1bab_9edf13b787c89100nat, r9);
    let r10: nat = 0x65b66daa1c4a6df6_2d25ae49dc389c22_28b2011574aa62a3_28320b0d25129efenat;
    let e10: nat = e9 + 1;
    lemma_multiply_step(7, e9, r9, 1, r10);
    let r11: nat = 0x6f3ed13f7ff15602_8dcfd71e7edc126e_5badf808d3d9c0f7_58b66cb43ac67843nat;
    let e11: nat = 2 * e10;
    lemma_square_step(7, e10, r10, 0x593d76a7dc3d8aa6_8f4df78a1b676041_e758ae2ba2384938_751dfc28efb00bc1nat, r11);
    let r12: nat = 0x5325ccc985e86a60_ad53d1a53e3970e4_8b4ff02bcafe1ec9_6cfcf8f39b6d49cfnat;
    let e12: nat = e11 + 1;
    lemma_multiply_step(7, e11, r11, 6, r12);
    let r13: nat = 0x577b2c947c0b7fc0_b6f54d9582ab6d38_b3e14d5bce79a085_48f4f1ba6242203enat;
    let e13: nat = 2 * e12;
    lemma_square_step(7, e12, r12, 0x3ba2e22b67e6a180_888329a67e0775f3_20ea48bcecbc3e7b_14b7586b374b9523nat, r13);
    let r14: nat = 0x20b9f36f943d0bdc_0093e6ee6286c472_4874e973a55b97a9_feb29c1dafcee1adnat;
    let e14: nat = e13 + 1;
    lemma_multiply_step(7, e13, r13, 5, r14);
    let r15: nat = 0x24921c59462184c5_4420403531f4b95d_ab582f2bfb612fbd_f67ac3381d0b9ac9nat;
    let e15: nat = 2 * e14;
    lemma_square_step(7, e14, r14, 0x93d14cbc6c4b8f2_deed4f44ba061a91_7e3325ddda402fda_fd11a9d46251f420nat, r15);
    let r16: nat = 0x182377ca97afa6d4_766e11644a6d6185_07ee022ddfab9633_bd5b568acb513b7dnat;
    let e16: nat = e15 + 1;
    lemma_multiply_step(7, e15, r15, 2, r16);
}

/// The generator raised to a leading part of the odd cofactor.
proof fn lemma_generator_power_20()
    ensures
        fpow(7, 0x39f6d3_a994cebea4199cec_0404d0ec02a9ded2_017fff2dff7fffffnat) == 0x3440cbe64c2f8a8f_37adad9722881a4a_ad7ad4813c1497a6_7535d143b5ea6a3bnat,
{
    lemma_generator_power_19();
    let e0: nat = 0x39f6_d3a994cebea4199c_ec0404d0ec02a9de_d2017fff2dff7fffnat;
    let r0: nat = 0x182377ca97afa6d4_766e11644a6d6185_07ee022ddfab9633_bd5b568acb513b7dnat;
    let r1: nat = 0x3cd3df763bfa4241_8c4c7f2366a7c16c_8b47c6c8e5a88dd9_2e914e3db75d5c17nat;
    let e1: nat = 2 * e0;
    lemma_square_step(7, e0, r0, 0x506afa350721eeb_79978efd5720076c_e7aa9e6218446fef_50e23d97398f7ef2nat, r1);
    let r2: nat = 0x4e02264226ff57f2_3c69f1dfb1b0c1e7_d3bd837547a0ccf3_45f923b3038d849enat;
    let e2: nat = e1 + 1;
    lemma_multiply_step(7, e1, r1, 3, r2);
    let r3: nat = 0x812909e58d3a39_ef9472232760adcb_13e651c4508e45cf_ad76eb184e43f3f7nat;
    let e3: nat = 2 * e2;
    lemma_square_step(7, e2, r2, 0x347df39368259fb7_8e924b75b97b1266_535f219864a75d60_e497babfc07b5d8dnat, r3);
    let r4: nat = 0x3881f4546dc9795_8d0f1ef613a4c08d_8b4c3c5e33e3e8ad_be406daa23dbabc1nat;
    let e4: nat = e3 + 1;
    lemma_multiply_step(7, e3, r3, 0, r4);
    let r5: nat = 0x281c3452e5586b1b_eb98aee73d9e1e84_d5885f036452c3b3_17ff60dea0de8d25nat;
    let e5: nat = 2 * e4;
    lemma_square_step(7, e4, r4, 0x1b8b39ce948fb6_fd6584f20c969b19_559e29501a5b0b2f_6e1bbd477492da5cnat, r5);
    let r6: nat = 0x30ea1f9df22ff333_0ab918429c0f2597_2f3f5111be46a1e7_a7fba6186615dc01nat;
    let e6: nat = e5 + 1;
    lemma_multiply_step(7, e5, r5, 2, r6);
    let r7: nat = 0x26bc03aeafd7ab9c_0172b897f8464ef6_b6ec9d1e0ccdcc0d_4ca7c2abc20e3273nat;
    let e7: nat = 2 * e6;
    lemma_square_step(7, e6, r6, 0x14a38e9d32243691_fecebe9492d9952a_7201f3f7ed9d142d_f09bbc40df2d858enat, r7);
    let r8: nat = 0x2748cb207baab6b3_a3af5c17b6a878b4_58fd03cc59a3dc5f_189652b44e636123nat;
    let e8: nat = e7 + 1;
    lemma_multiply_step(7, e7, r7, 2, r8);
    let r9: nat = 0xf1dcb386f27ece5_e76c595729430179_ea6cf78bf1b58596_07baa1ef2122eeb6nat;
    let e9: nat = 2 * e8;
    lemma_square_step(7, e8, r8, 0xd4febbd663af93f_18e6d128055c93f3_54a5bd379d32b77a_d40fb52178ca9c13nat, r9);
    let r10: nat = 0x69d08e8b0a177a49_53f6716220d50a55_68fac4d39bf6a71a_361a6d89e7f486fanat;
    let e10: nat = e9 + 1;
    lemma_multiply_step(7, e9, r9, 0, r10);
    let r11: nat = 0x6657f96f06b2aab9_11a7c506deb1c88d_f7441e55923d740c_a1c8c77c4893cda9nat;
    let e11: nat = 2 * e10;
    lemma_square_step(7, e10, r10, 0x6095559bb791fe43_1267fa54942d562f_0cacb1e699e0755f_08faa7bb7726de7bnat, r11);
    let r12: nat = 0x14d5e6163531bb5e_483b52ffdd116bc1_cc6afc44ffb8045e_6c7d746bfc0a9f99nat;
    let e12: nat = e11 + 1;
    lemma_multiply_step(7, e11, r11, 6, r12);
    let r13: nat = 0x1ecb00d804c2d52_0433e08fb6848613_3b65eb69f11144d1_caf0768c373ce9fdnat;
    let e13: nat = 2 * e12;
    lemma_square_step(7, e12, r12, 0x3bea658178a66a0_00464ee9e553455e_4cfd81cc4c61af71_4e590573dc367f74nat, r13);
    let r14: nat = 0xd78d05e82153d3e_1d6b23edfd9faa86_9fc96fe59778e1bc_8c933dd582aa65ebnat;
    let e14: nat = e13 + 1;
    lemma_multiply_step(7, e13, r13, 0, r14);
    let r15: nat = 0x3925f71ff825b733_670d07ab52343bc3_cef51b81764b61a9_a307b02dd0d85852nat;
    let e15: nat = 2 * e14;
    lemma_square_step(7, e14, r14, 0x190c89babedfd3f_673fe8e9d527d309_40bfb25a0f55859c_b78255355fd6ed67nat, r15);
    let r16: nat = 0x3440cbe64c2f8a8f_37adad9722881a4a_ad7ad4813c1497a6_7535d143b5ea6a3bnat;
    let e16: nat = e15 + 1;
    lemma_multiply_step(7, e15, r15, 3, r16);
}

/// The generator raised to a leading part of the odd cofactor.
proof fn lemma_generator_power_21()
    ensures
        fpow(7, 0x39f6d3a9_94cebea4199cec04_04d0ec02a9ded201_7fff2dff7fffffffnat) == 0x57061ce7c24b0f64_209adc161a13584e_676456b6c21fb148_c1e61efca21620c3nat,
{
    lemma_generator_power_20();
    let e0: nat = 0x39f6d3_a994cebea4199cec_0404d0ec02a9ded2_017fff2dff7fffffnat;
    let r0: nat = 0x3440cbe64c2f8a8f_37adad9722881a4a_ad7ad4813c1497a6_7535d143b5ea6a3bnat;
    let r1: nat = 0xad0f365172a085e_f6c0f7340dd386d5_76a8193f316349ca_9b2f5fc4e8a91ef0nat;
    let e1: nat = 2 * e0;
    lemma_square_step(7, e0, r0, 0x178d68772b15dc9a_cd6f7d2787b5196a_b9f4739a18420921_aff3aca3e547caa9nat, r1);
    let r2: nat = 0x4bb6a7c3a2263a98_bf46c26c60c8afd6_3e98b0ba59b7048a_3e4b9e625c9fd890nat;
    let e2: nat = e1 + 1;
    lemma_multiply_step(7, e1, r1, 0, r2);
    let r3: nat = 0x2d3a5cb637742a84_ba91a67867c15619_1419119f3d39ef79_9ed49680acbe2840nat;
    let e3: nat = 2 * e2;
    lemma_square_step(7, e2, r2, 0x3172edf9df288304_7dc455ec40bf1982_ceee657b6284df2a_ee1767f58d5528c0nat, r3);
    let r4: nat = 0x54bd3a5530f22f10_b387dd3ac305aaa4_e5343354ac98d455_57d01d86b93319benat;
    let e4: nat = e3 + 1;
    lemma_multiply_step(7, e3, r3, 2, r4);
    let r5: nat = 0x31858c58c85bc094_e25801c59d0ab1ed_e3d528286e4a5f8f_1527343bed9c3a09nat;
    let e5: nat = 2 * e4;
    lemma_square_step(7, e4, r4, 0x3df0eb23e1c0bf53_bd494ac377a67064_64c4ad9294753e0b_d1961f0ef2ae6efbnat, r5);
    let r6: nat = 0x72cb87c727474981_c9f45c5738072d76_9358d115040be4eb_94126da57f45963dnat;
    let e6: nat = e5 + 1;
    lemma_multiply_step(7, e5, r5, 2, r6);
    let r7: nat = 0x4869057d2f2ed2c8_02ccb36e2ab695b6_033d1bc3d4e9feb8_2885b0ad0d2cee0dnat;
    let e7: nat = 2 * e6;
    lemma_square_step(7, e6, r6, 0x71ac3e4bbee690e8_9b6ec54f5d026c48_7369cd59bc8be50b_ded8a66bcde09c7cnat, r7);
    let r8: nat = 0x2b28891fa3d1ce57_46b187e30476b7e4_c7b5324ed26c870d_1ba7d4bf5c3a8257nat;
    let e8: nat = e7 + 1;
    lemma_multiply_step(7, e7, r7, 4, r8);
    let r9: nat = 0x29747cc2a77e75b2_43efa862397e5fcc_87a2522c9582090b_c70384bf3a27c0f3nat;
    let e9: nat = 2 * e8;
    lemma_square_step(7, e8, r8, 0x1011335429ce4960_d505a0859afe760f_eb6f61380a46f6c6_e887e4be9fa0b89enat, r9);
    let r10: nat = 0x3a541aac413a3d4f_7519ea9f7f30ee8d_0df4f73216918754_7118a13c971646a3nat;
    let e10: nat = e9 + 1;
    lemma_multiply_step(7, e9, r9, 2, r10);
    let r11: nat = 0x128c2776111d9c0c_dac34bebef828631_79dc47fdb8e25391_1634b89eb2ded621nat;
    let e11: nat = 2 * e10;
    lemma_square_step(7, e10, r10, 0x1d58fbe4d05e97cd_171bc5adb24b1439_39e02e50e14af2af_0d7368b5cea2b5a8nat, r11);
    let r12: nat = 0xde76ce74e31c711_c81d3b6b82efd355_014853ed0e31ecf8_9b710c57e417dae6nat;
    let e12: nat = e11 + 1;
    lemma_multiply_step(7, e11, r11, 1, r12);
    let r13: nat = 0x178efdcf44160c4_00927fe7eb832216_ff742f225314f11a_91b6fc92a7d63680nat;
    let e13: nat = 2 * e12;
    lemma_square_step(7, e12, r12, 0x1aae76cec7106f9_9d7a8d62975fa6ae_c45d15f6bd476462_59f62c0818aa5024nat, r13);
    let r14: nat = 0xa4e8f0aadc9a55c_04017f577095eea0_fc2d49f0459297b9_fc00e80296db7d80nat;
    let e14: nat = e13 + 1;
    lemma_multiply_step(7, e13, r13, 0, r14);
    let r15: nat = 0x6fcc938cf6489227_9e47b40a0bfb337d_7b1e98f81bb9fa77_404572233bba04afnat;
    let e15: nat = 2 * e14;
    lemma_square_step(7, e14, r14, 0xea9646ec3729f8_40541e9607c43680_4e7dbb4abb430ad2_0252b26fbacc3b51nat, r15);
    let r16: nat = 0x57061ce7c24b0f64_209adc161a13584e_676456b6c21fb148_c1e61efca21620c3nat;
    let e16: nat = e15 + 1;
    lemma_multiply_step(7, e15, r15, 6, r16);
}

/// The generator raised to a leading part of the odd cofactor.
proof fn lemma_generator_power_22()
    ensures
        fpow(7, 0x73eda753_299d7d483339d808_09a1d80553bda402_fffe5bfeffffffffnat) == 0x16a2a19edfe81f20_d09b681922c813b4_b63683508c2280b9_3829971f439f0d2bnat,
{
    lemma_generator_power_21();
    let e0: nat = 0x39f6d3a9_94cebea4199cec04_04d0ec02a9ded201_7fff2dff7fffffffnat;
    let r0: nat = 0x57061ce7c24b0f64_209adc161a13584e_676456b6c21fb148_c1e61efca21620c3nat;
    let r1: nat = 0x457a76b3ee9fb9c0_3b12aee39cc2351c_dc2b02c41403fdd0_bee15ebac0846f99nat;
    let e1: nat = 2 * e0;
    lemma_square_step(7, e0, r0, 0x415380a4f48f427b_c8675ad5b4364147_e219bb7a3c6b44c2_8891bd7db130e4f0nat, r1);
    let r2: nat = 0x16a2a19edfe81f20_d09b681922c813b4_b63683508c2280b9_3829971f439f0d2bnat;
    let e2: nat = e1 + 1;
    lemma_multiply_step(7, e1, r1, 4, r2);
}

/// The fixed root of unity, the generator raised to the odd cofactor, has the
/// value [`root_of_unity_value`].
pub proof fn lemma_root_of_unity_value()
    ensures
        root_of_unity() == root_of_unity_value(),
        root_of_unity() < modulus(),
{
    lemma_generator_power_22();
    assert(multiplicative_generator() == 7);
    assert(odd_cofactor() == 0x73eda753_299d7d483339d808_09a1d80553bda402_fffe5bfeffffffffnat);
}

/// The fixed root of unity has order 2^32: its 2^32-th power is one, and its
/// 2^31-th power is minus one.
pub proof fn lemma_root_of_unity_order()
    ensures
        fpow(root_of_unity(), pow2(32)) == 1,
        fpow(root_of_unity(), pow2(31)) == (modulus() - 1) as nat,
{
    lemma_root_of_unity_value();
    lemma2_to64();
    let g: nat = root_of_unity_value();
    lemma_fpow_one(g);
    let e0: nat = 1;
    let r0: nat = g;
    let r1: nat = 0x4b5371495990693f_ad1715b02e5713b5_f070bb00e28a193d_63e7cb4906ffc93fnat;
    let e1: nat = 2 * e0;
    lemma_square_step(g, e0, r0, 0x46b6a531156833f_2ec469fcaf1ad016_c0ac8ff8fe9b35ff_8ee05ed0d7179bfanat, r1);
    let r2: nat = 0x2c6d4e4511657e1e_1339a815da8b398f_ed3a181fabb30adc_694341f608c9dd56nat;
    let e2: nat = 2 * e1;
    lemma_square_step(g, e1, r1, 0x30f1ab1595c2d2f9_89fb50964a7330fc_a73e88614457bfab_9c968b2474ec202bnat, r2);
    let r3: nat = 0xc83ea7744bf1bee_8da40c1ef2bb4598_84d37b826214abc6_474650359d8e211bnat;
    let e3: nat = 2 * e2;
    lemma_square_step(g, e2, r2, 0x110691833f37afde_bb20c8e046d2b3e6_decaddee100e33d6_994171de12db77c9nat, r3);
    let r4: nat = 0x52dd465e2f094256_99e276b571905a7d_6558e9e3f6ac7b41_d7b688830a4f2089nat;
    let e4: nat = 2 * e3;
    lemma_square_step(g, e3, r3, 0x159e2bf6a5370d1_30211f45b03eac73_87e0a96213c5fb1b_817c887ed1ecd850nat, r4);
    let r5: nat = 0x23397a9300f8f98b_ece8ea224f31d25d_b94f1101b1d7a628_e2d0a7869f0319ednat;
    let e5: nat = 2 * e4;
    lemma_square_step(g, e4, r4, 0x3b3b06a28b2a02bf_5a5e6c922e12eda9_76394d9d1a2eff10_4b9feb132dad6f64nat, r5);
    let r6: nat = 0xa0a77a3b1980c0d_116168bffbedc11d_02c8118402867ddc_531a11a0d2d75182nat;
    let e6: nat = 2 * e5;
    lemma_square_step(g, e5, r5, 0xab3f0119626603c_452151d90394c5fe_5f63d733517d87cc_5933f6a03156d3e7nat, r6);
    let r7: nat = 0x19fe632fd328739_0454dc1edc61a1a3_c0ba12bb3da64ca5_ce32ef844e11a51enat;
    let e7: nat = 2 * e6;
    lemma_square_step(g, e6, r6, 0xdea2b6fae4c13a_deb5ceea0db4ad43_4f85d64802013a04_dc120eb4fc3de0e6nat, r7);
    let r8: nat = 0x291cf6d68823e687_6e0bcd91ee762730_72cf6a8029b7d7bc_92cf4deb77bd779cnat;
    let e8: nat = 2 * e7;
    lemma_square_step(g, e7, r7, 0x5d40fa3da1bdb_3e982d8325993408_e8d10daae5d0d25f_e9f5f6c228be37e8nat, r8);
    let r9: nat = 0x73560252aa0655b2_5121af06a3b51e3c_c631ffb2585a72db_5616c57de0ec9eaenat;
    let e9: nat = 2 * e8;
    lemma_square_step(g, e8, r8, 0xe949a21ffecedd8_a6ebeda0253d2477_0c6475e7105136d2_0b4e24b8fb4dc862nat, r9);
    let r10: nat = 0xabe6a5e5abcaa32_f2d38f10fbb8d1bb_e08fec7c86389bee_c6e7a6ffb08e3363nat;
    let e10: nat = 2 * e9;
    lemma_square_step(g, e9, r9, 0x72bf23af7a589fbb_742d2d81ca321502_55935a678663bc32_c2871632c29d0ae1nat, r10);
    let r11: nat = 0x47c8b5817018af4f_c70d0874b0691d4e_46b3105f04db5844_cd3979122d3ea03anat;
    let e11: nat = 2 * e10;
    lemma_square_step(g, e10, r10, 0xfee5fb5d0ea236_f1b501ec83e593c8_7e931ac7e47af231_b20917dbfee5f80fnat, r11);
    let r12: nat = 0x3e1c54bcb947035_a57a6e07cb98de4a_2f69e02d265e09d9_fece7e0e39898d4bnat;
    let e12: nat = 2 * e11;
    lemma_square_step(g, e11, r11, 0x2c730c3140a37a7f_3f53fcbdea18424e_87b457e70cd38cf8_0220f1992ad6ffd9nat, r12);
    let r13: nat = 0x520e587a724a6955_df625e80d0adef90_ad8e16e84419c750_194e8c62ecb38d9dnat;
    let e13: nat = 2 * e12;
    lemma_square_step(g, e12, r12, 0x2146e2a0b8e0de_7288868eee118eaa_ab19d42369bf1a60_e0036d01018e265cnat, r13);
    let r14: nat = 0x2d3056a530794f01_652f717ae1c34bb0_bb97a3bf30ce40fd_6f421a7d8ef674fbnat;
    let e14: nat = 2 * e13;
    lemma_square_step(g, e13, r13, 0x3a14a5a3be2166a2_bb8b08bf05a97855_021e83cee04f46af_3e8f720d40eddd4enat, r14);
    let r15: nat = 0x224262332d8acbf4_473a2eef772c33d6_cd7f2bd6d0711b7d_08692405f3b70f10nat;
    let e15: nat = 2 * e14;
    lemma_square_step(g, e14, r14, 0x119d5585e49aad5f_9259d189b881bf07_e02bc04bae10b9fb_776bcb2c88215f09nat, r15);
    let r16: nat = 0x2155379d12180caa_88f39a78f1aeb578_67a665ae1fcadc91_d7118f85cd96b8adnat;
    let e16: nat = 2 * e15;
    lemma_square_step(g, e15, r15, 0xa1fd62a66e50b75_0997f40fc9e83eea_0500b811d36d5017_89a2b8ec1c2c2853nat, r16);
    let r17: nat = 0x3291357ee558b50d_483405417a0cbe39_c8d5f51db3f32699_fbd047e11279bb6enat;
    let e17: nat = 2 * e16;
    lemma_square_step(g, e16, r16, 0x9958e6f28786057_3c01eaa556834299_8d1392b9d3fcdc8d_b6ad07ddef7b697bnat, r17);
    let r18: nat = 0x56624634b500a166_dc86b01c0d477fa6_ae4622f6a9152435_034d2ff22a5ad9e1nat;
    let e18: nat = 2 * e17;
    lemma_square_step(g, e17, r17, 0x160e9ebe700aee0e_8574c66da309cd89_d6ed44211ce40930_4995ad0b04db0963nat, r18);
    let r19: nat = 0x485d512737b1da3d_2ccddea2972e89ed_146b58bc434906ac_6fdd00bfc78c8967nat;
    let e19: nat = 2 * e18;
    lemma_square_step(g, e18, r18, 0x405e6df92310b5af_d19ea62edd2f1b3f_c5abdf7db6a963f5_565a28b9f816ae5anat, r19);
    let r20: nat = 0x564c0a11a0f704f4_fc3e8acfe0f8245f_0ad1347b378fbf96_e206da11a5d36306nat;
    let e20: nat = 2 * e19;
    lemma_square_step(g, e19, r19, 0x2d2bd4bacd6e3f84_defbd926f073f958_e1d4245c641a3b84_19a3fcd00e94046bnat, r20);
    let r21: nat = 0x6d031f1b5c49c834_09f1ca610a08f166_55ea6811be9c622d_4a838b5d59cd79e5nat;
    let e21: nat = 2 * e20;
    lemma_square_step(g, e20, r20, 0x403d4f41dc6a8cda_3cf38f8e270787fd_c5640c7098f15d5c_2c4c29dfc4642a3fnat, r21);
    let r22: nat = 0x325db5c3debf77a1_8f4de02c0f776af3_ea437f9626fc085e_3c28d666a5c2d854nat;
    let e22: nat = 2 * e21;
    lemma_square_step(g, e21, r21, 0x668237981ad07340_e3bec76b2e667c1f_236eb1410dc35729_70685a2e07096e85nat, r22);
    let r23: nat = 0x95166525526a654_39feec240d80689f_d697168a3a6000fe_4541b8ff2ee0434enat;
    let e23: nat = 2 * e22;
    lemma_square_step(g, e22, r22, 0x15e1c84c3f26c9b1_e00eae02d90a05e7_542a1f75ba7e56e4_a881715baf3d9842nat, r23);
    let r24: nat = 0x4f9b4098e2e9f12e_6b368121ac0cf4ad_0a0865a899e8deff_4935bd2f817f694bnat;
    let e24: nat = 2 * e23;
    lemma_square_step(g, e23, r23, 0xbfbb2ef2ee09fe_34f8f27564be4b57_4bb19a28a01c9180_1d34575360b28279nat, r24);
    let r25: nat = 0x6898111413588742_b7c68b4d7fdd60d0_98d0caac87f5713c_5130c2c1660125benat;
    let e25: nat = 2 * e24;
    lemma_square_step(g, e24, r24, 0x36aa29c22b40321b_a61b5f8d4f77795c_110acbf388c9e1c8_d157c28ad3b7763bnat, r25);
    let r26: nat = 0x45af6345ec055e4d_14a1e27164d8fdbd_2d967f4be2f95155_8140d032f0a9ee53nat;
    let e26: nat = 2 * e25;
    lemma_square_step(g, e25, r25, 0x5e5e2b110231c030_83ccd5493c04a498_ead16b7e63ad3a7f_5df5850ec8628ab1nat, r26);
    let r27: nat = 0x50e0903a157988ba_b4bcd40e22f55448_bf6e88fb4c38fb8a_360c60997369df4enat;
    let e27: nat = 2 * e26;
    lemma_square_step(g, e26, r26, 0x29e358a60746b7fb_cb35f71de474d145_4e6ba9a6ad4648a2_55653715b40a8f9bnat, r27);
    let r28: nat = 0x20b1ce9140267af9_dd1c0af834cec32c_17beb312f20b6f76_53ea61d87742bccenat;
    let e28: nat = 2 * e27;
    lemma_square_step(g, e27, r27, 0x386c80aaeff17f52_77bec07697315a92_56acbcf5e7689d06_a0f792c28d823ef6nat, r28);
    let r29: nat = 0x345766f603fa66e7_8c0625cd70d77ce2_b38b21c28713b700_7228fd3397743f7anat;
    let e29: nat = 2 * e28;
    lemma_square_step(g, e28, r28, 0x9387c422d7cefe2_c20eb21442545c86_38ea24eb341e34ae_27b3cda3d202f64anat, r29);
    let r30: nat = 0x8d51ccce760304d0_ec03000276030000_0001000000000000nat;
    let e30: nat = 2 * e29;
    lemma_square_step(g, e29, r29, 0x17a1cdc048cdb127_8454e23dc04aaf59_3e9344a7a37aaf2d_77cf0c6b824d4624nat, r30);
    let r31: nat = 0x73eda753299d7d48_3339d80809a1d805_53bda402fffe5bfe_ffffffff00000000nat;
    let e31: nat = 2 * e30;
    lemma_square_step(g, e30, r30, 0xac45a4010001a402_0000000100000000nat, r31);
    let r32: nat = 0x1nat;
    let e32: nat = 2 * e31;
    lemma_square_step(g, e31, r31, 0x73eda753299d7d48_3339d80809a1d805_53bda402fffe5bfe_fffffffeffffffffnat, r32);
    assert(e31 == pow2(31));
    assert(e32 == pow2(32));
}

/// The 2^32-th power of the coset constant 7.
pub proof fn lemma_seven_to_the_two_to_32()
    ensures
        fpow(7, pow2(32)) == 0x8634d0aa021aaf8_43cab354fabb0062_f6502437c6a09c00_6c083479590189d7nat,
{
    lemma2_to64();
    let g: nat = 7;
    lemma_fpow_one(g);
    let e0: nat = 1;
    let r0: nat = g;
    let r1: nat = 0x31nat;
    let e1: nat = 2 * e0;
    lemma_square_step(g, e0, r0, 0x0nat, r1);
    let r2: nat = 0x961nat;
    let e2: nat = 2 * e1;
    lemma_square_step(g, e1, r1, 0x0nat, r2);
    let r3: nat = 0x57f6c1nat;
    let e3: nat = 2 * e2;
    lemma_square_step(g, e2, r2, 0x0nat, r3);
    let r4: nat = 0x1e39a5057d81nat;
    let e4: nat = 2 * e3;
    lemma_square_step(g, e3, r3, 0x0nat, r4);
    let r5: nat = 0x3918fa8_303c33586e913b01nat;
    let e5: nat = 2 * e4;
    lemma_square_step(g, e4, r4, 0x0nat, r5);
    let r6: nat = 0xcbc21fe4561c8_d63b78e780e1341e_199417c8c0bb7601nat;
    let e6: nat = 2 * e5;
    lemma_square_step(g, e5, r5, 0x0nat, r6);
    let r7: nat = 0x3f658b7688becbdd_628a4be1e35a32d3_601910de06fe2947_626b83cf2f1e7765nat;
    let e7: nat = 2 * e6;
    lemma_square_step(g, e6, r6, 0x1662158ac10_92af3aa3ecbc749cnat, r7);
    let r8: nat = 0x4a789ea4fdc7ccf_2f98a0632d8c6ed8_905fb69fe4f4b577_17cff0cd340c8e6dnat;
    let e8: nat = 2 * e7;
    lemma_square_step(g, e7, r7, 0x22ab4d2f3b201280_b7f2c4a4c54f73b3_7dbbe8fb24292c2e_8a0f356c154e7f6cnat, r8);
    let r9: nat = 0x4d1e5e8c9348ebdf_2c1e2a75d7f3456d_069489ff208b436e_906c3a6979f6c0d9nat;
    let e9: nat = 2 * e8;
    lemma_square_step(g, e8, r8, 0x2fd6ea70e70d8d_ebd6f5a64977a38f_2370a0c65f8969a3_c315b432777e5990nat, r9);
    let r10: nat = 0x45802caf41dbd58d_d8be0b10e0eb662e_5d5871f49b77117b_84274f9b513c3705nat;
    let e10: nat = 2 * e9;
    lemma_square_step(g, e9, r9, 0x334d2701ade3afa3_fc8fc919710dc26a_8a7a3f7f913e4f43_6bee6777031600ecnat, r10);
    let r11: nat = 0x964c3466f718721_5b5abad04922d8e2_a5a210cae66d3f76_7faf5a14caca24d4nat;
    let e11: nat = 2 * e10;
    lemma_square_step(g, e10, r10, 0x29aaa941f4d27da9_acd99e9794c9b45b_2b429dcb8293184a_43de863935610145nat, r11);
    let r12: nat = 0x5238ba785063e217_812b41448426fe8a_abb0d6e6b743db25_3683decc3f41b173nat;
    let e12: nat = 2 * e11;
    lemma_square_step(g, e11, r11, 0xc2db446d5f34ba_9cc12646784424e5_c5ff0959712245c4_620d322d749a9e1dnat, r12);
    let r13: nat = 0x4a5cb61848084c35_3c2ea0463f78127a_fe022d9b35f1cf68_6e33d587cba29eddnat;
    let e13: nat = 2 * e12;
    lemma_square_step(g, e12, r12, 0x3a50b4c005dca3c7_99871b291837ad55_d09d53c0ed8b4c22_e7596ebe65c39accnat, r13);
    let r14: nat = 0x2aa2c6745539c412_745d7b3384d57091_254fcc8528885b5e_bd74b6631311b63enat;
    let e14: nat = 2 * e13;
    lemma_square_step(g, e13, r13, 0x2fb315fd35860d37_91247ae34d730876_6cad43f23169df70_5babbc7ddd37d48bnat, r14);
    let r15: nat = 0x6804d24ab62aa136_ba6e492fb897934e_c92eca7707b4b62d_29317b82b3379c2enat;
    let e15: nat = 2 * e14;
    lemma_square_step(g, e14, r14, 0xfae359f4cebc5fd_becf6c1a4c91da74_162e97c78f653858_b1fddd8e36c09ad6nat, r15);
    let r16: nat = 0xeda5c059add22bd_06c653a3a30dc6c4_7b749f3444a3f53e_baf3b58a7efb134fnat;
    let e16: nat = 2 * e15;
    lemma_square_step(g, e15, r15, 0x5d55335c62875318_412207d7f997025a_f5ab3e149da38cc4_0cbef29f501104f5nat, r16);
    let r17: nat = 0x30d604f213d878f7_d0706249706d95c7_9581c3e36607b671_2030e0f47b872b6dnat;
    let e17: nat = 2 * e16;
    lemma_square_step(g, e16, r16, 0x1e72a70fdcd8e25_23f18535a989607e_8a3839d141af4664_a99b6a6c26d7a6f4nat, r17);
    let r18: nat = 0x3eb4ec72f1eea6bd_4c7c790f8374a0d9_776911bccac77483_fd2421c34f25f9danat;
    let e18: nat = 2 * e17;
    lemma_square_step(g, e17, r17, 0x14929af342ff642e_c9d565c83442738e_e33111f9714d8f26_102e63ad432dd28fnat, r18);
    let r19: nat = 0xc2a9a7faa1a1a2e_d631f40acb99a21f_9ae1ff0ea0334c18_c525b6ab4565e752nat;
    let e19: nat = 2 * e18;
    lemma_square_step(g, e18, r18, 0x21eb2da348645ae5_1ce1a30ccd0fa7ef_478f0cde498d24df_4e5f7b997377e652nat, r19);
    let r20: nat = 0x628fc184374a1219_e85d9e943d57d0c2_0bad4d8f813859f6_121b51c927eaa4dcnat;
    let e20: nat = 2 * e19;
    lemma_square_step(g, e19, r19, 0x146dee559671dd8_a5a2f114f0039f50_3fae3b1bbdb07bfb_1142d66d63ce7168nat, r20);
    let r21: nat = 0x1a35c7c215188748_e7e542d149e563e7_a4428baab83f69a5_6b7606628c87fe13nat;
    let e21: nat = 2 * e20;
    lemma_square_step(g, e20, r20, 0x53cbe1a6a96b3ca5_de7bc9c500a32824_2042ad743a347386_c3c8075f47d29efdnat, r21);
    let r22: nat = 0x720ae8ff3738e762_084a601dc0ff1294_297fb210a4777bce_414e9afbe9fe8391nat;
    let e22: nat = 2 * e21;
    lemma_square_step(g, e21, r21, 0x5ed014deb5be5d1_cbf8d296ae59c793_ed6f06a3bcaa385a_f197078ad23531d8nat, r22);
    let r23: nat = 0x58335464ad9e9cae_4e3c072e4a916134_82a60243cab735b6_48512d6f616d5433nat;
    let e23: nat = 2 * e22;
    lemma_square_step(g, e22, r22, 0x703004e3259ea69e_7200f1ccfba3b1a8_1e2dde7e41618e42_5338f15be7ec63eenat, r23);
    let r24: nat = 0x429265f1d3e7fa86_a1fadf67d487e6d9_64d94839da7a1825_71aadd3d0c035396nat;
    let e24: nat = 2 * e23;
    lemma_square_step(g, e23, r23, 0x431ac9cc79e7f587_53cbbcdf9fe86023_eb9da6b4e4d3e443_01344c0f691c2e93nat, r24);
    let r25: nat = 0x729ad34c57d4ef07_d0322a356af7bf83_aeffcf6d731d38a4_10cdf80b4199e4d7nat;
    let e25: nat = 2 * e24;
    lemma_square_step(g, e24, r24, 0x263a99b4bac2c4d4_7c1ba5c266f20b13_8a78f93652fa55a5_b615e05edf34b70dnat, r25);
    let r26: nat = 0x2be12a4eb7fdd244_8fffef1afca5eaf4_dc9863ce38faf65a_d7339e32176a1bd8nat;
    let e26: nat = 2 * e25;
    lemma_square_step(g, e25, r25, 0x714bdd93f4be4174_26a8a7e74514f829_8dfb4acb5fd92e3b_d4afafb96c2390b9nat, r26);
    let r27: nat = 0x2a98b3de1e8d0539_6c576a792ed0dd3c_afe4f76895ae53bf_ade986863f8b7153nat;
    let e27: nat = 2 * e26;
    lemma_square_step(g, e26, r26, 0x109bd194a3e70b66_80607fbd2c963b27_320bdbe78784828f_fe780bc2a25bd4ednat, r27);
    let r28: nat = 0x689f65808ca09717_b3829a115bd0634c_b70b4a5ea3e0c94c_dcf15f2f4e706efenat;
    let e28: nat = 2 * e27;
    lemma_square_step(g, e27, r27, 0xfa6cdce0145a848_6ecde4d3f22a2ddb_54171ffd7c9a9bbd_f864075acddbf1ebnat, r28);
    let r29: nat = 0x64261cc222fdf919_36919a42327a03e7_70bccb15393bcf7b_9eb16e5f4ed5cd46nat;
    let e29: nat = 2 * e28;
    lemma_square_step(g, e28, r28, 0x5e6b65760a2206ce_26af8f0311ff253d_74db4beb9ab73824_0ac602a6c78976benat, r29);
    let r30: nat = 0x27359bd349c3f009_050fce0e2c4d5f11_54a815fea49a9a0a_8baf83d6aca8566enat;
    let e30: nat = 2 * e29;
    lemma_square_step(g, e29, r29, 0x568468a6a1c85ea5_f559c7e77e48fa20_538f7c0c2ca316ac_44e6d279366cd8b6nat, r30);
    let r31: nat = 0x46e02401a9194f31_06d1137895c1d407_deff7dc6ff0f95c4_bb188d53056fd0d8nat;
    let e31: nat = 2 * e30;
    lemma_square_step(g, e30, r30, 0xd42ee5a755d6867_33796df701e2b1cf_d267e2bb3ab8add0_a1c16fd6581e466cnat, r31);
    let r32: nat = 0x8634d0aa021aaf8_43cab354fabb0062_f6502437c6a09c00_6c083479590189d7nat;
    let e32: nat = 2 * e31;
    lemma_square_step(g, e31, r31, 0x2b54da4a658b821b_b65b3b4c73664237_cb72484d0fe6e123_dbd2e2fedcae2c69nat, r32);
    assert(e31 == pow2(31));
    assert(e32 == pow2(32));
}

/// The 2^32-th power of the coset constant 13.
pub proof fn lemma_thirteen_to_the_two_to_32()
    ensures
        fpow(13, pow2(32)) == 0x8f20886c807dfdd_90175ab91378a633_2306a2e935396ff0_0cc385372055eae3nat,
{
    lemma2_to64();
    let g: nat = 13;
    lemma_fpow_one(g);
    let e0: nat = 1;
    let r0: nat = g;
    let r1: nat = 0xa9nat;
    let e1: nat = 2 * e0;
    lemma_square_step(g, e0, r0, 0x0nat, r1);
    let r2: nat = 0x6f91nat;
    let e2: nat = 2 * e1;
    lemma_square_step(g, e1, r1, 0x0nat, r2);
    let r3: nat = 0x309f1021nat;
    let e3: nat = 2 * e2;
    lemma_square_step(g, e2, r2, 0x0nat, r3);
    let r4: nat = 0x93c08e16a022441nat;
    let e4: nat = 2 * e3;
    lemma_square_step(g, e3, r3, 0x0nat, r4);
    let r5: nat = 0x5546b4036cb4a9_3665904c6a265881nat;
    let e5: nat = 2 * e4;
    lemma_square_step(g, e4, r4, 0x0nat, r5);
    let r6: nat = 0x1c68071136a4_3c14718ac205de64_3f86732b30584024_982373a138e4f101nat;
    let e6: nat = 2 * e5;
    lemma_square_step(g, e5, r5, 0x0nat, r6);
    let r7: nat = 0x447e2a7675a114c6_f6d7ac447d2810c7_7ef65ffc45d460a7_a1ee0399a11cfa64nat;
    let e7: nat = 2 * e6;
    lemma_square_step(g, e6, r6, 0x6f5e474_842f16ffcb76e107_8f5987971233f222_bd08e373fb8de79dnat, r7);
    let r8: nat = 0x70ee3af3c0739bc7_49439caded656ef9_ef0fa39c5d3139be_6ee73b25d3338663nat;
    let e8: nat = 2 * e7;
    lemma_square_step(g, e7, r7, 0x28778b6340896699_7e6ad770585fd7d5_0f43961fc757037b_4283cf48af93f0adnat, r8);
    let r9: nat = 0x5cca4ed1c1569df8_6b2fce148b8d0806_fcca1fe5174d503f_9b812b25e24dbdfanat;
    let e9: nat = 2 * e8;
    lemma_square_step(g, e8, r8, 0x6e02a6c6504851d7_ebf1090bfc92780d_3eaaf2229a29221a_9bed55ad21b00c4fnat, r9);
    let r10: nat = 0x39ee9e210a149622_f2e159c52901142c_7462e52eec7430b7_d67304391acd5693nat;
    let e10: nat = 2 * e9;
    lemma_square_step(g, e9, r9, 0x4a45330618126fc5_2dad282a77326ef4_001d25b9b6fc2a91_ce6afea52291c191nat, r10);
    let r11: nat = 0x19c87b8a5a8ff92e_db6cca18163c2367_2d7911da82f4cd87_65d76272d7682823nat;
    let e11: nat = 2 * e10;
    lemma_square_step(g, e10, r10, 0x1cf334e10ffe2d45_f8fa097413143724_304a3967e0762548_4c7b0d92c94cf046nat, r11);
    let r12: nat = 0x29c58fbc5e829e12_3a556568ac4bf853_1549739d2c7b5d66_b0b2196caeb9dff2nat;
    let e12: nat = 2 * e11;
    lemma_square_step(g, e11, r11, 0x5bbfc5502e17e42_99356d8c3a1563eb_c32201b1ea229bcb_62d7a461be0114d7nat, r12);
    let r13: nat = 0x11afe9f7058d485d_a23f591369724afb_78b0475d297a634e_24ad74edac3bed43nat;
    let e13: nat = 2 * e12;
    lemma_square_step(g, e12, r12, 0xf0d24b9ac24c621_0ba215a3bac584af_cf72e87d0e5b9ddc_f51d8a25bb6f9381nat, r13);
    let r14: nat = 0x57e3ab9aa2a58fad_e4bd107b5f6f989e_d277a715f92c8dc3_55ee25784b073f88nat;
    let e14: nat = 2 * e13;
    lemma_square_step(g, e13, r13, 0x2b2d2ad82e76c34_8ffd9639dbbbfed6_4d13eac0954596f9_ce3a556ff5bfe001nat, r14);
    let r15: nat = 0x5b5863973a4ac3c5_7bf3ffc7a60fdc33_547389c65f52ddc9_2659d08a0e98b8dfnat;
    let e15: nat = 2 * e14;
    lemma_square_step(g, e14, r14, 0x42a1ca1563f2ad8d_dd6a53391e444e15_306bf2e9254c7c6d_fa47cdc52a9b7f61nat, r15);
    let r16: nat = 0x13d80923f6348ae2_91d1154419e18afc_8b930f8e50be08be_52c5dd9361f34fc5nat;
    let e16: nat = 2 * e15;
    lemma_square_step(g, e15, r15, 0x47f9a2e116009b2b_0413cccbf0000edf_fcc977be9453c1d3_668ce4a9105e027cnat, r16);
    let r17: nat = 0x2b6284073306a469_0ad608d47c0ecad0_5b3c29c3f66b33a6_fa419b0ef409ee22nat;
    let e17: nat = 2 * e16;
    lemma_square_step(g, e16, r16, 0x365919f5c7bed64_14b954472958a48f_939e9534d6d41820_9861ac59decf3f77nat, r17);
    let r18: nat = 0x46e32d9f4d3194b7_74b1c6ad383bfa41_186f70449bd5bbe6_93d87e02a2b59ed3nat;
    let e18: nat = 2 * e17;
    lemma_square_step(g, e17, r17, 0x103c7be608432852_8f89372682d98df1_e8d7c2a8e91a5a25_2ab345b9c9319db1nat, r18);
    let r19: nat = 0x6b2929445ee8f74d_6623bd51e0623c48_f900d9789be83a02_16687c1affbb0210nat;
    let e19: nat = 2 * e18;
    lemma_square_step(g, e18, r18, 0x2b589132b5464b9e_80c32ddc76ad3b82_5aa1c63937c57ef5_ff6c30e7052c1fd9nat, r19);
    let r20: nat = 0x26800eea8ed1555e_e8c51cb59da5c62f_242ff4d65b3b4a8e_794923e4f4d2ece1nat;
    let e20: nat = 2 * e19;
    lemma_square_step(g, e19, r19, 0x630e6ae72b1bd2e7_dae82d0be87d831b_13a71a038dfc76e4_fdba3231ee91541fnat, r20);
    let r21: nat = 0x484483949fd973b8_fe4e890ebe272914_03ea296740ce9650_8fa7cd0d92e5eb46nat;
    let e21: nat = 2 * e20;
    lemma_square_step(g, e20, r20, 0xcc93bba9d8d23ae_3f2337af7d082cf7_086fe9b6e1d94f40_bab61d8bd16db27bnat, r21);
    let r22: nat = 0x45df1296a77d4be6_bb343625512db08e_630d0beeba7f5e94_67da5ba5d2b29c09nat;
    let e22: nat = 2 * e21;
    lemma_square_step(g, e21, r21, 0x2d0ce301446f9293_655cca39698d5ca1_cad43dbd310dee80_04afaf6bc8c2fb1bnat, r22);
    let r23: nat = 0x5f8121537d3f7dc4_7a2c900aa9b8facb_d8078aaa5c815f09_a3a9e678eb356cd4nat;
    let e23: nat = 2 * e22;
    lemma_square_step(g, e22, r22, 0x2a1cc00556396db3_0a7046db5f6eef60_930c78472638db0a_d0a8b33a34698b7dnat, r23);
    let r24: nat = 0x28b7a132cc63c05c_9aab3c2068856812_22f367a924700398_44a172e855289af3nat;
    let e24: nat = 2 * e23;
    lemma_square_step(g, e23, r23, 0x4eadc0bfedf21fdc_00227560c4e9f9ad_d750130488853235_dde7996820e2f49dnat, r24);
    let r25: nat = 0x4d0972b06aa88978_f09e051d21343308_f8d47850f045a545_c63e6c5da168eb56nat;
    let e25: nat = 2 * e24;
    lemma_square_step(g, e24, r24, 0xe4d12aec7a9c2e7_3957d3d2f4b243f0_f23174efec7a2b6f_5da52cbb86505753nat, r25);
    let r26: nat = 0x31f83cc6f05db556_e661f8b0d6c7f172_0f9f1678ec146041_6f1a2edc8ba4396enat;
    let e26: nat = 2 * e25;
    lemma_square_step(g, e25, r25, 0x3331550f3590b0a9_0187cdd8bc417352_1ff4e78be89c9cf2_77b14817ae92c776nat, r26);
    let r27: nat = 0x39b423a3a8d19bfa_c6f9e976ab575d26_dec36fa1cc74cd64_2518e3cf19eb2cb6nat;
    let e27: nat = 2 * e26;
    lemma_square_step(g, e26, r26, 0x1589f544ceee7106_ddb7bde32885104c_16e87e1c0d6bb1e4_38381785fbe6fe8enat, r27);
    let r28: nat = 0x499498656805f1b6_9e2b945b9fffd131_0af0427ba99591d2_b8af6e880d6fd511nat;
    let e28: nat = 2 * e27;
    lemma_square_step(g, e27, r27, 0x1cb8e02b85e463ae_2fd91af9f22ad8f6_fa862137fb68ae1c_e030a6e59c833c53nat, r28);
    let r29: nat = 0x7194dd0b63ba8da3_93e711aadbcd61ba_01bb4bf1b3aef138_7dcc12d3575b4584nat;
    let e29: nat = 2 * e28;
    lemma_square_step(g, e28, r28, 0x2eb3b4eadc5d2d03_719c2aaff1a4d93e_6956e4249cb74ca8_7acb7d57d8b8059dnat, r29);
    let r30: nat = 0x499ac4bcb4255492_97b84f162b5913e1_414e10fdc49d6611_fc3a2a521d7e3821nat;
    let e30: nat = 2 * e29;
    lemma_square_step(g, e29, r29, 0x6f483c50be412d62_64cf5bb6293cf1cc_ea6cc2212300f8b7_c36a5aff193a33efnat, r30);
    let r31: nat = 0x3b6e16a446056847_20a7702ee2b5e6e4_7f31007c31aa9723_7a996064d99e63f8nat;
    let e31: nat = 2 * e30;
    lemma_square_step(g, e30, r30, 0x2ebb8b59e1d55f78_a36fccbabda8d075_9a7d5fe7f0a93539_2c334ffaed2c1049nat, r31);
    let r32: nat = 0x8f20886c807dfdd_90175ab91378a633_2306a2e935396ff0_0cc385372055eae3nat;
    let e32: nat = 2 * e31;
    lemma_square_step(g, e31, r31, 0x1e776b89a2f6ec8a_ba48f0b923ba3d21_a59953c7f4be122a_3636515fdcd3d55dnat, r32);
    assert(e31 == pow2(31));
    assert(e32 == pow2(32));
}

} // verus!
