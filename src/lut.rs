//! The curve table: samples of the cumulative logistic mass, baked offline.
//!
//! Positions are Q8.24 with the inflection point at 6.0, so the domain is
//! `[0.0, 12.0]`; costs are Q16.48 and run from `0.0` to `6.0`.

use vstd::prelude::*;

verus! {

/// Number of samples in the curve table (odd, so the centre is a sample).
pub const LUT_LEN: usize = 1025;

/// Smallest position of the curve domain (Q8.24).
pub const LUT_X_MIN: u32 = 0;

/// Largest position of the curve domain: 12.0 in Q8.24.
pub const LUT_X_MAX: u32 = 201326592;

/// Cumulative cost at `LUT_X_MAX`: 6.0 in Q16.48.
pub const LUT_S_MAX: u64 = 1688849860263936;

/// Sample positions, strictly increasing (Q8.24).
pub const X_LUT: [u32; 1025] = [
    0, 543062, 1083423, 1621095, 2156092, 2688428, 3218115, 3745167,
    4269596, 4791417, 5310641, 5827283, 6341354, 6852867, 7361835, 7868272,
    8372189, 8873598, 9372513, 9868946, 10362909, 10854415, 11343475, 11830102,
    12314309, 12796106, 13275506, 13752521, 14227163, 14699443, 15169374, 15636967,
    16102233, 16565185, 17025834, 17484190, 17940267, 18394074, 18845623, 19294926,
    19741994, 20186838, 20629468, 21069896, 21508133, 21944190, 22378077, 22809806,
    23239387, 23666830, 24092147, 24515348, 24936443, 25355444, 25772360, 26187201,
    26599979, 27010703, 27419384, 27826032, 28230656, 28633267, 29033876, 29432491,
    29829123, 30223782, 30616477, 31007218, 31396016, 31782879, 32167818, 32550841,
    32931959, 33311181, 33688516, 34063974, 34437564, 34809295, 35179177, 35547218,
    35913429, 36277817, 36640393, 37001165, 37360142, 37717333, 38072747, 38426393,
    38778279, 39128414, 39476808, 39823468, 40168404, 40511624, 40853136, 41192948,
    41531071, 41867511, 42202277, 42535378, 42866822, 43196616, 43524770, 43851291,
    44176188, 44499468, 44821140, 45141212, 45459691, 45776586, 46091904, 46405653,
    46717842, 47028477, 47337567, 47645119, 47951141, 48255640, 48558625, 48860102,
    49160079, 49458564, 49755564, 50051086, 50345138, 50637727, 50928861, 51218546,
    51506789, 51793599, 52078982, 52362945, 52645495, 52926639, 53206385, 53484739,
    53761708, 54037299, 54311519, 54584375, 54855874, 55126021, 55394825, 55662291,
    55928426, 56193238, 56456732, 56718915, 56979794, 57239374, 57497664, 57754668,
    58010394, 58264847, 58518035, 58769963, 59020637, 59270064, 59518251, 59765202,
    60010926, 60255426, 60498710, 60740784, 60981653, 61221324, 61459803, 61697095,
    61933207, 62168144, 62401912, 62634517, 62865965, 63096261, 63325412, 63553422,
    63780299, 64006046, 64230670, 64454177, 64676572, 64897860, 65118048, 65337140,
    65555142, 65772059, 65987897, 66202662, 66416357, 66628990, 66840565, 67051087,
    67260562, 67468995, 67676390, 67882754, 68088092, 68292407, 68495706, 68697994,
    68899275, 69099555, 69298839, 69497131, 69694436, 69890760, 70086107, 70280482,
    70473891, 70666337, 70857825, 71048361, 71237949, 71426594, 71614300, 71801072,
    71986915, 72171834, 72355832, 72538915, 72721088, 72902353, 73082718, 73262184,
    73440758, 73618444, 73795245, 73971167, 74146214, 74320389, 74493698, 74666145,
    74837734, 75008470, 75178356, 75347396, 75515596, 75682959, 75849489, 76015191,
    76180068, 76344125, 76507366, 76669795, 76831415, 76992232, 77152248, 77311469,
    77469897, 77627537, 77784392, 77940468, 78095767, 78250293, 78404050, 78557043,
    78709274, 78860748, 79011468, 79161439, 79310663, 79459145, 79606888, 79753896,
    79900173, 80045722, 80190547, 80334652, 80478039, 80620713, 80762677, 80903935,
    81044491, 81184347, 81323507, 81461974, 81599753, 81736847, 81873258, 82008991,
    82144048, 82278434, 82412151, 82545202, 82677592, 82809323, 82940399, 83070822,
    83200597, 83329726, 83458213, 83586060, 83713271, 83839850, 83965799, 84091121,
    84215819, 84339897, 84463358, 84586205, 84708440, 84830068, 84951090, 85071510,
    85191331, 85310556, 85429188, 85547229, 85664683, 85781553, 85897842, 86013552,
    86128686, 86243247, 86357239, 86470663, 86583523, 86695822, 86807562, 86918746,
    87029376, 87139457, 87248989, 87357977, 87466423, 87574329, 87681698, 87788533,
    87894836, 88000611, 88105859, 88210584, 88314788, 88418473, 88521643, 88624299,
    88726444, 88828082, 88929213, 89029842, 89129969, 89229599, 89328733, 89427374,
    89525524, 89623186, 89720362, 89817054, 89913265, 90008998, 90104254, 90199037,
    90293348, 90387190, 90480564, 90573475, 90665923, 90757911, 90849441, 90940516,
    91031138, 91121309, 91211032, 91300308, 91389140, 91477530, 91565480, 91652993,
    91740070, 91826714, 91912928, 91998712, 92084069, 92169002, 92253512, 92337601,
    92421273, 92504528, 92587369, 92669797, 92751816, 92833426, 92914631, 92995431,
    93075830, 93155828, 93235429, 93314633, 93393444, 93471862, 93549890, 93627530,
    93704784, 93781654, 93858141, 93934247, 94009975, 94085326, 94160302, 94234905,
    94309137, 94383000, 94456495, 94529625, 94602390, 94674794, 94746837, 94818522,
    94889851, 94960824, 95031445, 95101714, 95171634, 95241205, 95310431, 95379312,
    95447850, 95516048, 95583906, 95651426, 95718611, 95785461, 95851979, 95918166,
    95984023, 96049553, 96114757, 96179637, 96244193, 96308429, 96372345, 96435943,
    96499224, 96562191, 96624845, 96687186, 96749218, 96810941, 96872357, 96933467,
    96994273, 97054777, 97114980, 97174883, 97234488, 97293797, 97352811, 97411531,
    97469959, 97528096, 97585944, 97643504, 97700778, 97757766, 97814472, 97870895,
    97927037, 97982901, 98038486, 98093795, 98148828, 98203588, 98258075, 98312291,
    98366238, 98419916, 98473327, 98526472, 98579353, 98631971, 98684327, 98736423,
    98788259, 98839837, 98891159, 98942226, 98993038, 99043598, 99093906, 99143964,
    99193773, 99243334, 99292648, 99341717, 99390542, 99439124, 99487465, 99535564,
    99583425, 99631047, 99678433, 99725583, 99772498, 99819180, 99865629, 99911848,
    99957836, 100003596, 100049128, 100094433, 100139513, 100184369, 100229002, 100273412,
    100317602, 100361572, 100405323, 100448856, 100492173, 100535274, 100578161, 100620835,
    100663296, 100705757, 100748431, 100791318, 100834419, 100877736, 100921269, 100965020,
    101008990, 101053180, 101097590, 101142223, 101187079, 101232159, 101277464, 101322996,
    101368756, 101414744, 101460963, 101507412, 101554094, 101601009, 101648159, 101695545,
    101743167, 101791028, 101839127, 101887468, 101936050, 101984875, 102033944, 102083258,
    102132819, 102182628, 102232686, 102282994, 102333554, 102384366, 102435433, 102486755,
    102538333, 102590169, 102642265, 102694621, 102747239, 102800120, 102853265, 102906676,
    102960354, 103014301, 103068517, 103123004, 103177764, 103232797, 103288106, 103343691,
    103399555, 103455697, 103512120, 103568826, 103625814, 103683088, 103740648, 103798496,
    103856633, 103915061, 103973781, 104032795, 104092104, 104151709, 104211612, 104271815,
    104332319, 104393125, 104454235, 104515651, 104577374, 104639406, 104701747, 104764401,
    104827368, 104890649, 104954247, 105018163, 105082399, 105146955, 105211835, 105277039,
    105342569, 105408426, 105474613, 105541131, 105607981, 105675166, 105742686, 105810544,
    105878742, 105947280, 106016161, 106085387, 106154958, 106224878, 106295147, 106365768,
    106436741, 106508070, 106579755, 106651798, 106724202, 106796967, 106870097, 106943592,
    107017455, 107091687, 107166290, 107241266, 107316617, 107392345, 107468451, 107544938,
    107621808, 107699062, 107776702, 107854730, 107933148, 108011959, 108091163, 108170764,
    108250762, 108331161, 108411961, 108493166, 108574776, 108656795, 108739223, 108822064,
    108905319, 108988991, 109073080, 109157590, 109242523, 109327880, 109413664, 109499878,
    109586522, 109673599, 109761112, 109849062, 109937452, 110026284, 110115560, 110205283,
    110295454, 110386076, 110477151, 110568681, 110660669, 110753117, 110846028, 110939402,
    111033244, 111127555, 111222338, 111317594, 111413327, 111509538, 111606230, 111703406,
    111801068, 111899218, 111997859, 112096993, 112196623, 112296750, 112397379, 112498510,
    112600148, 112702293, 112804949, 112908119, 113011804, 113116008, 113220733, 113325981,
    113431756, 113538059, 113644894, 113752263, 113860169, 113968615, 114077603, 114187135,
    114297216, 114407846, 114519030, 114630770, 114743069, 114855929, 114969353, 115083345,
    115197906, 115313040, 115428750, 115545039, 115661909, 115779363, 115897404, 116016036,
    116135261, 116255082, 116375502, 116496524, 116618152, 116740387, 116863234, 116986695,
    117110773, 117235471, 117360793, 117486742, 117613321, 117740532, 117868379, 117996866,
    118125995, 118255770, 118386193, 118517269, 118649000, 118781390, 118914441, 119048158,
    119182544, 119317601, 119453334, 119589745, 119726839, 119864618, 120003085, 120142245,
    120282101, 120422657, 120563915, 120705879, 120848553, 120991940, 121136045, 121280870,
    121426419, 121572696, 121719704, 121867447, 122015929, 122165153, 122315124, 122465844,
    122617318, 122769549, 122922542, 123076299, 123230825, 123386124, 123542200, 123699055,
    123856695, 124015123, 124174344, 124334360, 124495177, 124656797, 124819226, 124982467,
    125146524, 125311401, 125477103, 125643633, 125810996, 125979196, 126148236, 126318122,
    126488858, 126660447, 126832894, 127006203, 127180378, 127355425, 127531347, 127708148,
    127885834, 128064408, 128243874, 128424239, 128605504, 128787677, 128970760, 129154758,
    129339677, 129525520, 129712292, 129899998, 130088643, 130278231, 130468767, 130660255,
    130852701, 131046110, 131240485, 131435832, 131632156, 131829461, 132027753, 132227037,
    132427317, 132628598, 132830886, 133034185, 133238500, 133443838, 133650202, 133857597,
    134066030, 134275505, 134486027, 134697602, 134910235, 135123930, 135338695, 135554533,
    135771450, 135989452, 136208544, 136428732, 136650020, 136872415, 137095922, 137320546,
    137546293, 137773170, 138001180, 138230331, 138460627, 138692075, 138924680, 139158448,
    139393385, 139629497, 139866789, 140105268, 140344939, 140585808, 140827882, 141071166,
    141315666, 141561390, 141808341, 142056528, 142305955, 142556629, 142808557, 143061745,
    143316198, 143571924, 143828928, 144087218, 144346798, 144607677, 144869860, 145133354,
    145398166, 145664301, 145931767, 146200571, 146470718, 146742217, 147015073, 147289293,
    147564884, 147841853, 148120207, 148399953, 148681097, 148963647, 149247610, 149532993,
    149819803, 150108046, 150397731, 150688865, 150981454, 151275506, 151571028, 151868028,
    152166513, 152466490, 152767967, 153070952, 153375451, 153681473, 153989025, 154298115,
    154608750, 154920939, 155234688, 155550006, 155866901, 156185380, 156505452, 156827124,
    157150404, 157475301, 157801822, 158129976, 158459770, 158791214, 159124315, 159459081,
    159795521, 160133644, 160473456, 160814968, 161158188, 161503124, 161849784, 162198178,
    162548313, 162900199, 163253845, 163609259, 163966450, 164325427, 164686199, 165048775,
    165413163, 165779374, 166147415, 166517297, 166889028, 167262618, 167638076, 168015411,
    168394633, 168775751, 169158774, 169543713, 169930576, 170319374, 170710115, 171102810,
    171497469, 171894101, 172292716, 172693325, 173095936, 173500560, 173907208, 174315889,
    174726613, 175139391, 175554232, 175971148, 176390149, 176811244, 177234445, 177659762,
    178087205, 178516786, 178948515, 179382402, 179818459, 180256696, 180697124, 181139754,
    181584598, 182031666, 182480969, 182932518, 183386325, 183842402, 184300758, 184761407,
    185224359, 185689625, 186157218, 186627149, 187099429, 187574071, 188051086, 188530486,
    189012283, 189496490, 189983117, 190472177, 190963683, 191457646, 191954079, 192452994,
    192954403, 193458320, 193964757, 194473725, 194985238, 195499309, 196015951, 196535175,
    197056996, 197581425, 198108477, 198638164, 199170500, 199705497, 200243169, 200783530,
    201326592,
];

/// Cumulative cost at each sample position (Q16.48).
pub const S_LUT: [u64; 1025] = [
    0, 22895882193, 46423539643, 70596402653, 95428166259, 120932707398,
    147123984558, 174016229171, 201623747349, 229961178795, 259043123649, 288884576624,
    319500478140, 350906051353, 383116691196, 416148029893, 450015673394, 484735451315,
    520323498062, 556795974875, 594169200829, 632459730420, 671684119572, 711859235828,
    753002108189, 795129659970, 838259216846, 882408167723, 927594046729, 973834432121,
    1021147236700, 1069550314141, 1119061644184, 1169699551812, 1221482279448, 1274428071383,
    1328555756487, 1383883698159, 1440430725298, 1498215788331, 1557257823266, 1617575869097,
    1679188923879, 1742116357428, 1806377499927, 1871991772763, 1938978529155, 2007357512182,
    2077148234007, 2148370269098, 2221043596375, 2295187929447, 2370823033516, 2447969094237,
    2526645804934, 2606873076591, 2688671257650, 2772060151663, 2857059992610, 2943690844184,
    3031972570804, 3121925485442, 3213569935651, 3306925589734, 3402012805274, 3498851715622,
    3597462198083, 3697864360413, 3800078565950, 3904124372276, 4010022104701, 4117791237939,
    4227452042883, 4339024191332, 4452527295325, 4567981213378, 4685405444690, 4804819415541,
    4926242806610, 5049694567418, 5175194571677, 5302761246699, 5432414311266, 5564172339213,
    5698054148104, 5834078448761, 5972263841258, 6112628810981, 6255191315479, 6399969574042,
    6546982105476, 6696246028152, 6847779588169, 7001600024031, 7157724397505, 7316169589128,
    7476953734390, 7640092444013, 7805602558006, 7973500757807, 8143803044885, 8316524688348,
    8491682326015, 8669290818610, 8849365890583, 9031921950634, 9216974305810, 9404537490669,
    9594625211037, 9787252126049, 9982431457653, 10180176783852, 10380502092302, 10583419199893,
    10788941600510, 10997081225148, 11207850405358, 11421260517152, 11637324075715, 11856051198485,
    12077453138062, 12301540891600, 12528324429862, 12757813414360, 12990017991646, 13224947238908,
    13462610742546, 13703016154636, 13946171606830, 14192086641686, 14440767960012, 14692222780528,
    14946458002507, 15203480205311, 15463296584192, 15725912171447, 15991332586094, 16259563127133,
    16530608773961, 16804474186969, 17081163708307, 17360679277810, 17643026626104, 17928206997765,
    18216223376048, 18507079537261, 18800775643069, 19097313693146, 19396695378948, 19698919740723,
    20003990138526, 20311903733351, 20622662077553, 20936262772240, 21252706761548, 21571990940127,
    21894113067773, 22219071859760, 22546865749631, 22877488849541, 23210941609865, 23547216049284,
    23886310640184, 24228220822296, 24572940261492, 24920465137341, 25270789900597, 25623907182610,
    25979812254056, 26338497076498, 26699954780608, 27064178192265, 27431159837345, 27800890331203,
    28173363189970, 28548566757947, 28926495641457, 29307135852880, 29690479757441, 30076517800644,
    30465238411518, 30856629683396, 31250682979152, 31647384041110, 32046721892577, 32448683463990,
    32853257262696, 33260431579482, 33670188710378, 34082520237906, 34497409833856, 34914842798738,
    35334806177093, 35757284798382, 36182261173097, 36609723717841, 37039656572227, 37472039382128,
    37906859981080, 38344101812175, 38783745904394, 39225777420658, 39670179169119, 40116931495771,
    40566016751219, 41017419413086, 41471119207116, 41927097954182, 42385339694074, 42845821192257,
    43308523734762, 43773430919087, 44240521353621, 44709775925910, 45181172882306, 45654692810284,
    46130316194182, 46608023422801, 47087789557940, 47569597318675, 48053426779766, 48539249873527,
    49027054482400, 49516809542727, 50008500150619, 50502103191816, 50997592611044, 51494950653863,
    51994153922847, 52495176027168, 52997999120664, 53502599588264, 54008953732083, 54517040766870,
    55026833912015, 55538309263946, 56051448991258, 56566226150578, 57082616771687, 57600599989803,
    58120148687172, 58641242004098, 59163855955333, 59687966550407, 60213546535876, 60740578435216,
    61269031728697, 61798889078018, 62330119912792, 62862703668667, 63396613091427, 63931831199459,
    64468327399845, 65006077943230, 65545059147880, 66085250949561, 66626622759048, 67169154653356,
    67712819664119, 68257598110467, 68803459505802, 69350384359171, 69898345954722, 70447321344293,
    70997287707896, 71548218561493, 72100091282191, 72652883392181, 73206564815910, 73761117129306,
    74316514321398, 74872734396690, 75429755531593, 75987548077515, 76546090417985, 77105357072092,
    77665330803750, 78225986470550, 78787294903243, 79349239395230, 79911791018262, 80474933467471,
    81038638074174, 81602880446474, 82167644878031, 82732903085513, 83298635479685, 83864814005721,
    84431423790254, 84998437098863, 85565835108045, 86133590345026, 86701684355645, 87270098950698,
    87838807153818, 88407786615002, 88977015160932, 89546475400427, 90116145598074, 90686004205446,
    91256025188872, 91826196710619, 92396488427544, 92966884247846, 93537363607243, 94107906147581,
    94678491719776, 95249095540626, 95819702685464, 96390293649512, 96960849148132, 97531345177013,
    98101762827624, 98672083419460, 99242293516561, 99812364897124, 100382284569072, 100952034787238,
    101521592936765, 102090941682422, 102660058776570, 103228937662012, 103797546201809, 104365878359338,
    104933912787211, 105501628297819, 106069009161527, 106636039905271, 107202699971909, 107768979702097,
    108334853625282, 108900312582913, 109465336904405, 110029907093242, 110594014786923, 111157635476263,
    111720755788850, 112283368169318, 112845443146816, 113406979211345, 113967947236293, 114528346281838,
    115088153228678, 115647356416636, 116205938760281, 116763889087908, 117321190760228, 117877827329549,
    118433788330298, 118989063577263, 119543631500581, 120097488201744, 120650612523150, 121202995211949,
    121754615461420, 122305476335916, 122855551549339, 123404832790711, 123953306030362, 124500963462598,
    125047791521446, 125593776841907, 126138912346598, 126683179029176, 127226570257691, 127769073537207,
    128310676575583, 128851373472479, 129391146194268, 129929989288079, 130467897585583, 131004847394389,
    131540833933729, 132075852707035, 132609886843117, 133142925944447, 133674972555006, 134206004027390,
    134736016984545, 135264995477292, 135792943022540, 136319837632373, 136845683308806, 137370458393935,
    137894167373765, 138416788920384, 138938328002469, 139458763621880, 139978101228452, 140496320153408,
    141013419689617, 141529392751352, 142044232454213, 142557932114765, 143070478539880, 143581865392055,
    144092093280725, 144601149557845, 145109028484930, 145615724522303, 146121232328595, 146625546760225,
    147128656016503, 147630562166815, 148131246878595, 148630719503300, 149128962029328, 149625977326398,
    150121761568722, 150616297170885, 151109594577892, 151601636521259, 152092426871316, 152581948623516,
    153070213075374, 153557203535700, 154042917558840, 154527360000075, 155010514584246, 155492379381079,
    155972959808847, 156452240004703, 156930225742568, 157406908626127, 157882280378480, 158356347326784,
    158829101528585, 159300542433898, 159770655093820, 160239453837562, 160706924013874, 161173065699776,
    161637871798122, 162101350064385, 162563493725434, 163024288723464, 163483750711803, 163941865922065,
    164398635527997, 164854053416873, 165308121063439, 165760840114445, 166212204882861, 166662209792485,
    167110856912027, 167558148479143, 168004079335785, 168448644432718, 168891846421883, 169333680513933,
    169774149648390, 170213249293282, 170650982672906, 171087337846071, 171522333633012, 171955950666789,
    172388192690884, 172819071328412, 173248567481446, 173676693034331, 174103436800044, 174528810962971,
    174952804552448, 175375422247867, 175796668882674, 176216533786139, 176635022016936, 177052130930324,
    177467865847847, 177882224359657, 178295204152700, 178706810917723, 179117034652431, 179525881264662,
    179933356808543, 180339459524734, 180744179776032, 181147531919881, 181549506517506, 181950110190111,
    182349341678942, 182747199816235, 183143683524780, 183538799875862, 183932548008611, 184324927151025,
    184715944714294, 185105583925278, 185493868596064, 185880782115753, 186266340434536, 186650535220277,
    187033366344947, 187414841943054, 187794953901538, 188173718747138, 188551120333006, 188927175398041,
    189301876149563, 189675223077508, 190047225010872, 190417882635534, 190787196717509, 191155159811344,
    191521789413185, 191887078246660, 192251027393739, 192613638014235, 192974919691172, 193334865414396,
    193693484941658, 194050779771399, 194406743088682, 194763157139975, 195121813225818, 195482718161148,
    195845887224740, 196211344213275, 196579096136907, 196949166967044, 197321572321089, 197696327894288,
    198073440963013, 198452944362766, 198834845539000, 199219160502916, 199605905345851, 199995104793241,
    200386775132366, 200780924155906, 201177585456610, 201576758404110, 201978476803315, 202382748767285,
    202789599715944, 203199046554537, 203611097615200, 204025787279390, 204443115380790, 204863125216177,
    205285816781475, 205711216219926, 206139341080748, 206570209002027, 207003846466910, 207440271329823,
    207879501535746, 208321555120649, 208766459017760, 209214222665854, 209664882039135, 210118446774806,
    210574935409423, 211034375443291, 211496794523004, 211962202650857, 212430627690535, 212902088732308,
    213376604963240, 213854204616219, 214334907113202, 214818740949947, 215305716797184, 215795863375899,
    216289209561132, 216785766323547, 217285571810406, 217788637208732, 218295000965828, 218804665402405,
    219317669226996, 219834042250551, 220353787062794, 220876951952354, 221403548860422, 221933608117133,
    222467151031675, 223004208218958, 223544801245545, 224088961013927, 224636709350555, 225188068190693,
    225743068851117, 226301742817549, 226864112443407, 227430200192937, 228000037973821, 228573657865745,
    229151082758651, 229732345033224, 230317458457850, 230906474488065, 231499407181674, 232096280089024,
    232697135786290, 233301998147834, 233910900651068, 234523857947242, 235140922816009, 235762110206272,
    236387454222448, 237016979584207, 237650730296040, 238288731412063, 238931008105807, 239577604934999,
    240228537762486, 240883851501643, 241543581637176, 242207744444244, 242876385399214, 243549540502172,
    244227226444308, 244909499036971, 245596375284708, 246287901648837, 246984095397842, 247685013195582,
    248390672627472, 249101111073732, 249816375996291, 250536485406751, 251261497062519, 251991429296161,
    252726330369939, 253466228861759, 254211163469634, 254961173089365, 255716296815061, 256476573939639,
    257242033888360, 258012726383437, 258788691316805, 259569958658808, 260356568647313, 261148561721152,
    261945978520484, 262748870084088, 263557257080741, 264371201169472, 265190723348421, 266015885757775,
    266846709725446, 267683257874293, 268525551862220, 269373654796076, 270227588663777, 271087417057278,
    271953172702974, 272824909309567, 273702649524461, 274586457912539, 275476378425761, 276372444712533,
    277274711601071, 278183234203791, 279098036213084, 280019173128927, 280946700735839, 281880653844663,
    282821088687387, 283768051110584, 284721587163622, 285681753810099, 286648586833574, 287622143643078,
    288602471158042, 289589616498871, 290583637802907, 291584582654252, 292592509695532, 293607445212845,
    294629470027918, 295658621724688, 296694959887653, 297738522451631, 298789380423994, 299847572151821,
    300913158151972, 301986199221668, 303066745363033, 304154846769788, 305250564945286, 306353950529390,
    307465065513925, 308583949795409, 309710688199744, 310845309853542, 311987900152882, 313138488568615,
    314297149764971, 315463947446010, 316638922898133, 317822151592705, 319013686580674, 320213581087057,
    321421911379269, 322638719705079, 323864082832695, 325098054873691, 326340701632779, 327592089171242,
    328852272231121, 330121305714236, 331399279543290, 332686225855222, 333982235093309, 335287363059622,
    336601677421040, 337925234346852, 339258101913873, 340600360223044, 341952054273384, 343313264609717,
    344684060244196, 346064510417000, 347454672686872, 348854616670098, 350264412203104, 351684141319421,
    353113862356683, 354553645795622, 356003562326040, 357463682843867, 358934090549768, 360414832564102,
    361906004610682, 363407666277611, 364919889444964, 366442746179802, 367976320982170, 369520686357034,
    371075914986045, 372642067400002, 374219228896973, 375807485039983, 377406896856238, 379017550278105,
    380639506594438, 382272864564681, 383917685798095, 385574056992778, 387242039986494, 388921734371663,
    390613214871830, 392316543710110, 394031821077451, 395759109456534, 397498509440038, 399250083751644,
    401013907865409, 402790082903499, 404578684678473, 406379801915666, 408193497818102, 410019861318234,
    411858981520422, 413710934767285, 415575823368975, 417453710955477, 419344687113464, 421248841574693,
    423166251154850, 425097005782787, 427041195515530, 428998897400579, 430970214814967, 432955211799724,
    434953991921800, 436966632481209, 438993237287016, 441033870482878, 443088636019109, 445157624686307,
    447240927342691, 449338608135611, 451450784709977, 453577534651650, 455718962411065, 457875132113040,
    460046161759172, 462232115423623, 464433111246213, 466649226812034, 468880553220420, 471127181565483,
    473389216592999, 475666735752370, 477959843794458, 480268631798346, 482593177039055, 484933598011286,
    487289985727475, 489662417299880, 492050997399832, 494455816834080, 496876966326559, 499314564386727,
    501768687737060, 504239426883848, 506726900244827, 509231184206919, 511752368993248, 514290586948215,
    516845885912694, 519418412221971, 522008227498164, 524615435552593, 527240154329478, 529882459098668,
    532542453357442, 535220240507542, 537915923847573, 540629592240047, 543361348683498, 546111281678401,
    548879508290554, 551666131120006, 554471223732940, 557294902752862, 560137270244979, 562998413592411,
    565878448980831, 568777477945714, 571695587249930, 574632877971407, 577589465610520, 580565436247152,
    583560890324291, 586575957448913, 589610708306793, 592665242644398, 595739689485637, 598834133428882,
    601948673530752, 605083423410002, 608238481652202, 611413931694426, 614609916171880, 617826503120182,
    621063804911841, 624321933702806, 627600986448720, 630901074789572, 634222280091902, 637564728433348,
    640928515606657, 644313737068880, 647720503037809, 651148938588731, 654599108040914, 658071151005763,
    661565146247841, 665081217691529, 668619458607552, 672179977133330, 675762881106280, 679368278059026,
    682996259916085, 686646948847293, 690320436107380, 694016827908888, 697736245512760, 701478779139204,
    705244534011785, 709033645875845, 712846173044351, 716682266061872, 720541997925117, 724425487641055,
    728332853934924, 732264199710224, 736219611958385, 740199223952999, 744203121979038, 748231438701875,
    752284244069380, 756361685716442, 760463848488893, 764590848135789, 768742800097968, 772919788099845,
    777121942582840, 781349378004210, 785602177005459, 789880484850905, 794184383486793, 798513986011485,
    802869405205102, 807250753528759, 811658143123968, 816091685812223, 820551477224523, 825037644383344,
    829550298149836, 834089549065238, 838655507351342, 843248266970636, 847867969375506, 852514723874812,
    857188623479774, 861889792821720, 866618340263974, 871374389877712, 876158049441934, 880969426426389,
    885808644051651, 890675825282848, 895571060665838, 900494488680380, 905446215390974, 910426362683797,
    915435036068366, 920472373045740, 925538462462325, 930633441325409, 935757430274717, 940910533528813,
    946092887423506, 951304595693482, 956545778021911, 961816570096690, 967117074949631, 972447427851228,
    977807731381269, 983198136674095, 988618745901110, 994069677278573, 999551065119990, 1005063043580296,
    1010605697712065, 1016179193929183, 1021783649568841, 1027419181787000, 1033085907562884, 1038783976422554,
    1044513488688151, 1050274593613029, 1056067423972842, 1061892096027769, 1067748742287368, 1073637495146509,
    1079558486889314, 1085511849693163, 1091497699201949, 1097516200246266, 1103567451839314, 1109651618656757,
    1115768815966802, 1121919191860930, 1128102877907806, 1134320005603172, 1140570722860675, 1146855161063219,
    1153173451533949, 1159525758551348, 1165912196858431, 1172332930679262, 1178788074673987, 1185277793028647,
    1191802233407642, 1198361526928614, 1204955821230371, 1211585280504707, 1218250019301044, 1224950201821209,
    1231685992301602, 1238457521872751, 1245264938243122, 1252108405728111, 1258988055519110, 1265904068594269,
    1272856592814764, 1279845759482215, 1286871749737559, 1293934711587754, 1301034793091352, 1308172175596022,
    1315347007299459, 1322559436461659, 1329809644666135, 1337097780331828, 1344424008586727, 1351788494650025,
    1359191420478498, 1366632934846252, 1374113203263666, 1381632391344111, 1389190681463752, 1396788256120279,
    1404425247945240, 1412101872990788, 1419818280784792, 1427574637634205, 1435371143317852, 1443207964405369,
    1451085267592457, 1459003253070123, 1466962087809486, 1474961955603010, 1483003040388381, 1491085542943732,
    1499209614117909, 1507375454985717, 1515583266783421, 1523833217504475, 1532125508698190, 1540460325372083,
    1548837852691506, 1557258309403077, 1565721881003773, 1574228736437017, 1582779094951612, 1591373159256432,
    1600011132232129, 1608693183487659, 1617419549686550, 1626190400778035, 1635005973780654, 1643866455714886,
    1652772067230323, 1661722995695069, 1670719462113211, 1679761687670738, 1688849860263936,
];

} // verus!
