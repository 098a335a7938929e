use vstd::prelude::*;
use crate::lunar::spec_lunar_days_before_year;
use crate::solar::{spec_solar_days_before_year, spec_solar_year_len};
use crate::table::{spec_leap_index, spec_lunar_word};

verus! {

/// What holds of each covered year: it has a table word, its intercalary
/// index names a real month slot, the civil new year of the same number does
/// not fall after the lunar new year, and the lunar new year falls before
/// the next civil new year. These are facts of the
/// table's data; the lemmas below walk the table year by year to establish
/// them.
pub open spec fn spec_year_aligned(year: int) -> bool {
    &&& spec_lunar_word(year) != 0u32
    &&& spec_leap_index(spec_lunar_word(year)) <= 12
    &&& spec_lunar_days_before_year(year) >= spec_solar_days_before_year(year) - 35
    &&& spec_lunar_days_before_year(year) + 35 <= spec_solar_days_before_year(year)
        + spec_solar_year_len(year)
}

#[verifier::spinoff_prover]
#[verifier::rlimit(50)]
proof fn lemma_day_totals_1431()
    ensures
        spec_lunar_days_before_year(1431) == 14617,
        spec_solar_days_before_year(1431) == 14610,
{
    reveal_with_fuel(spec_lunar_days_before_year, 2);
    reveal_with_fuel(spec_solar_days_before_year, 2);
    assert(spec_lunar_days_before_year(1392) == 354 && spec_solar_days_before_year(1392) == 365);
    assert(spec_lunar_days_before_year(1393) == 738 && spec_solar_days_before_year(1393) == 731);
    assert(spec_lunar_days_before_year(1394) == 1092 && spec_solar_days_before_year(1394) == 1096);
    assert(spec_lunar_days_before_year(1395) == 1447 && spec_solar_days_before_year(1395) == 1461);
    assert(spec_lunar_days_before_year(1396) == 1831 && spec_solar_days_before_year(1396) == 1826);
    assert(spec_lunar_days_before_year(1397) == 2185 && spec_solar_days_before_year(1397) == 2192);
    assert(spec_lunar_days_before_year(1398) == 2540 && spec_solar_days_before_year(1398) == 2557);
    assert(spec_lunar_days_before_year(1399) == 2923 && spec_solar_days_before_year(1399) == 2922);
    assert(spec_lunar_days_before_year(1400) == 3277 && spec_solar_days_before_year(1400) == 3287);
    assert(spec_lunar_days_before_year(1401) == 3632 && spec_solar_days_before_year(1401) == 3653);
    assert(spec_lunar_days_before_year(1402) == 4015 && spec_solar_days_before_year(1402) == 4018);
    assert(spec_lunar_days_before_year(1403) == 4370 && spec_solar_days_before_year(1403) == 4383);
    assert(spec_lunar_days_before_year(1404) == 4754 && spec_solar_days_before_year(1404) == 4748);
    assert(spec_lunar_days_before_year(1405) == 5109 && spec_solar_days_before_year(1405) == 5114);
    assert(spec_lunar_days_before_year(1406) == 5463 && spec_solar_days_before_year(1406) == 5479);
    assert(spec_lunar_days_before_year(1407) == 5847 && spec_solar_days_before_year(1407) == 5844);
    assert(spec_lunar_days_before_year(1408) == 6201 && spec_solar_days_before_year(1408) == 6209);
    assert(spec_lunar_days_before_year(1409) == 6555 && spec_solar_days_before_year(1409) == 6575);
    assert(spec_lunar_days_before_year(1410) == 6939 && spec_solar_days_before_year(1410) == 6940);
    assert(spec_lunar_days_before_year(1411) == 7293 && spec_solar_days_before_year(1411) == 7305);
    assert(spec_lunar_days_before_year(1412) == 7677 && spec_solar_days_before_year(1412) == 7670);
    assert(spec_lunar_days_before_year(1413) == 8032 && spec_solar_days_before_year(1413) == 8036);
    assert(spec_lunar_days_before_year(1414) == 8387 && spec_solar_days_before_year(1414) == 8401);
    assert(spec_lunar_days_before_year(1415) == 8771 && spec_solar_days_before_year(1415) == 8766);
    assert(spec_lunar_days_before_year(1416) == 9125 && spec_solar_days_before_year(1416) == 9131);
    assert(spec_lunar_days_before_year(1417) == 9479 && spec_solar_days_before_year(1417) == 9497);
    assert(spec_lunar_days_before_year(1418) == 9863 && spec_solar_days_before_year(1418) == 9862);
    assert(spec_lunar_days_before_year(1419) == 10217 && spec_solar_days_before_year(1419) == 10227);
    assert(spec_lunar_days_before_year(1420) == 10571 && spec_solar_days_before_year(1420) == 10592);
    assert(spec_lunar_days_before_year(1421) == 10955 && spec_solar_days_before_year(1421) == 10958);
    assert(spec_lunar_days_before_year(1422) == 11310 && spec_solar_days_before_year(1422) == 11323);
    assert(spec_lunar_days_before_year(1423) == 11694 && spec_solar_days_before_year(1423) == 11688);
    assert(spec_lunar_days_before_year(1424) == 12049 && spec_solar_days_before_year(1424) == 12053);
    assert(spec_lunar_days_before_year(1425) == 12403 && spec_solar_days_before_year(1425) == 12419);
    assert(spec_lunar_days_before_year(1426) == 12787 && spec_solar_days_before_year(1426) == 12784);
    assert(spec_lunar_days_before_year(1427) == 13141 && spec_solar_days_before_year(1427) == 13149);
    assert(spec_lunar_days_before_year(1428) == 13495 && spec_solar_days_before_year(1428) == 13514);
    assert(spec_lunar_days_before_year(1429) == 13879 && spec_solar_days_before_year(1429) == 13880);
    assert(spec_lunar_days_before_year(1430) == 14233 && spec_solar_days_before_year(1430) == 14245);
    assert(spec_lunar_days_before_year(1431) == 14617 && spec_solar_days_before_year(1431) == 14610);
}

#[verifier::spinoff_prover]
#[verifier::rlimit(50)]
proof fn lemma_day_totals_1471()
    ensures
        spec_lunar_days_before_year(1471) == 29205,
        spec_solar_days_before_year(1471) == 29220,
{
    lemma_day_totals_1431();
    reveal_with_fuel(spec_lunar_days_before_year, 2);
    reveal_with_fuel(spec_solar_days_before_year, 2);
    assert(spec_lunar_days_before_year(1432) == 14972 && spec_solar_days_before_year(1432) == 14975);
    assert(spec_lunar_days_before_year(1433) == 15326 && spec_solar_days_before_year(1433) == 15341);
    assert(spec_lunar_days_before_year(1434) == 15710 && spec_solar_days_before_year(1434) == 15706);
    assert(spec_lunar_days_before_year(1435) == 16064 && spec_solar_days_before_year(1435) == 16071);
    assert(spec_lunar_days_before_year(1436) == 16418 && spec_solar_days_before_year(1436) == 16436);
    assert(spec_lunar_days_before_year(1437) == 16802 && spec_solar_days_before_year(1437) == 16802);
    assert(spec_lunar_days_before_year(1438) == 17157 && spec_solar_days_before_year(1438) == 17167);
    assert(spec_lunar_days_before_year(1439) == 17511 && spec_solar_days_before_year(1439) == 17532);
    assert(spec_lunar_days_before_year(1440) == 17895 && spec_solar_days_before_year(1440) == 17897);
    assert(spec_lunar_days_before_year(1441) == 18250 && spec_solar_days_before_year(1441) == 18263);
    assert(spec_lunar_days_before_year(1442) == 18634 && spec_solar_days_before_year(1442) == 18628);
    assert(spec_lunar_days_before_year(1443) == 18988 && spec_solar_days_before_year(1443) == 18993);
    assert(spec_lunar_days_before_year(1444) == 19342 && spec_solar_days_before_year(1444) == 19358);
    assert(spec_lunar_days_before_year(1445) == 19726 && spec_solar_days_before_year(1445) == 19724);
    assert(spec_lunar_days_before_year(1446) == 20080 && spec_solar_days_before_year(1446) == 20089);
    assert(spec_lunar_days_before_year(1447) == 20435 && spec_solar_days_before_year(1447) == 20454);
    assert(spec_lunar_days_before_year(1448) == 20819 && spec_solar_days_before_year(1448) == 20819);
    assert(spec_lunar_days_before_year(1449) == 21173 && spec_solar_days_before_year(1449) == 21185);
    assert(spec_lunar_days_before_year(1450) == 21528 && spec_solar_days_before_year(1450) == 21550);
    assert(spec_lunar_days_before_year(1451) == 21912 && spec_solar_days_before_year(1451) == 21915);
    assert(spec_lunar_days_before_year(1452) == 22266 && spec_solar_days_before_year(1452) == 22280);
    assert(spec_lunar_days_before_year(1453) == 22650 && spec_solar_days_before_year(1453) == 22646);
    assert(spec_lunar_days_before_year(1454) == 23004 && spec_solar_days_before_year(1454) == 23011);
    assert(spec_lunar_days_before_year(1455) == 23358 && spec_solar_days_before_year(1455) == 23376);
    assert(spec_lunar_days_before_year(1456) == 23742 && spec_solar_days_before_year(1456) == 23741);
    assert(spec_lunar_days_before_year(1457) == 24097 && spec_solar_days_before_year(1457) == 24107);
    assert(spec_lunar_days_before_year(1458) == 24451 && spec_solar_days_before_year(1458) == 24472);
    assert(spec_lunar_days_before_year(1459) == 24835 && spec_solar_days_before_year(1459) == 24837);
    assert(spec_lunar_days_before_year(1460) == 25190 && spec_solar_days_before_year(1460) == 25202);
    assert(spec_lunar_days_before_year(1461) == 25573 && spec_solar_days_before_year(1461) == 25568);
    assert(spec_lunar_days_before_year(1462) == 25927 && spec_solar_days_before_year(1462) == 25933);
    assert(spec_lunar_days_before_year(1463) == 26282 && spec_solar_days_before_year(1463) == 26298);
    assert(spec_lunar_days_before_year(1464) == 26665 && spec_solar_days_before_year(1464) == 26663);
    assert(spec_lunar_days_before_year(1465) == 27020 && spec_solar_days_before_year(1465) == 27029);
    assert(spec_lunar_days_before_year(1466) == 27375 && spec_solar_days_before_year(1466) == 27394);
    assert(spec_lunar_days_before_year(1467) == 27759 && spec_solar_days_before_year(1467) == 27759);
    assert(spec_lunar_days_before_year(1468) == 28113 && spec_solar_days_before_year(1468) == 28124);
    assert(spec_lunar_days_before_year(1469) == 28467 && spec_solar_days_before_year(1469) == 28490);
    assert(spec_lunar_days_before_year(1470) == 28851 && spec_solar_days_before_year(1470) == 28855);
    assert(spec_lunar_days_before_year(1471) == 29205 && spec_solar_days_before_year(1471) == 29220);
}

#[verifier::spinoff_prover]
#[verifier::rlimit(50)]
proof fn lemma_day_totals_1511()
    ensures
        spec_lunar_days_before_year(1511) == 43823,
        spec_solar_days_before_year(1511) == 43830,
{
    lemma_day_totals_1471();
    reveal_with_fuel(spec_lunar_days_before_year, 2);
    reveal_with_fuel(spec_solar_days_before_year, 2);
    assert(spec_lunar_days_before_year(1472) == 29589 && spec_solar_days_before_year(1472) == 29585);
    assert(spec_lunar_days_before_year(1473) == 29943 && spec_solar_days_before_year(1473) == 29951);
    assert(spec_lunar_days_before_year(1474) == 30298 && spec_solar_days_before_year(1474) == 30316);
    assert(spec_lunar_days_before_year(1475) == 30682 && spec_solar_days_before_year(1475) == 30681);
    assert(spec_lunar_days_before_year(1476) == 31037 && spec_solar_days_before_year(1476) == 31046);
    assert(spec_lunar_days_before_year(1477) == 31391 && spec_solar_days_before_year(1477) == 31412);
    assert(spec_lunar_days_before_year(1478) == 31775 && spec_solar_days_before_year(1478) == 31777);
    assert(spec_lunar_days_before_year(1479) == 32129 && spec_solar_days_before_year(1479) == 32142);
    assert(spec_lunar_days_before_year(1480) == 32513 && spec_solar_days_before_year(1480) == 32507);
    assert(spec_lunar_days_before_year(1481) == 32867 && spec_solar_days_before_year(1481) == 32873);
    assert(spec_lunar_days_before_year(1482) == 33221 && spec_solar_days_before_year(1482) == 33238);
    assert(spec_lunar_days_before_year(1483) == 33605 && spec_solar_days_before_year(1483) == 33603);
    assert(spec_lunar_days_before_year(1484) == 33960 && spec_solar_days_before_year(1484) == 33968);
    assert(spec_lunar_days_before_year(1485) == 34315 && spec_solar_days_before_year(1485) == 34334);
    assert(spec_lunar_days_before_year(1486) == 34699 && spec_solar_days_before_year(1486) == 34699);
    assert(spec_lunar_days_before_year(1487) == 35053 && spec_solar_days_before_year(1487) == 35064);
    assert(spec_lunar_days_before_year(1488) == 35407 && spec_solar_days_before_year(1488) == 35429);
    assert(spec_lunar_days_before_year(1489) == 35791 && spec_solar_days_before_year(1489) == 35795);
    assert(spec_lunar_days_before_year(1490) == 36145 && spec_solar_days_before_year(1490) == 36160);
    assert(spec_lunar_days_before_year(1491) == 36529 && spec_solar_days_before_year(1491) == 36525);
    assert(spec_lunar_days_before_year(1492) == 36883 && spec_solar_days_before_year(1492) == 36890);
    assert(spec_lunar_days_before_year(1493) == 37238 && spec_solar_days_before_year(1493) == 37256);
    assert(spec_lunar_days_before_year(1494) == 37622 && spec_solar_days_before_year(1494) == 37621);
    assert(spec_lunar_days_before_year(1495) == 37976 && spec_solar_days_before_year(1495) == 37986);
    assert(spec_lunar_days_before_year(1496) == 38331 && spec_solar_days_before_year(1496) == 38351);
    assert(spec_lunar_days_before_year(1497) == 38714 && spec_solar_days_before_year(1497) == 38717);
    assert(spec_lunar_days_before_year(1498) == 39068 && spec_solar_days_before_year(1498) == 39082);
    assert(spec_lunar_days_before_year(1499) == 39452 && spec_solar_days_before_year(1499) == 39447);
    assert(spec_lunar_days_before_year(1500) == 39807 && spec_solar_days_before_year(1500) == 39812);
    assert(spec_lunar_days_before_year(1501) == 40161 && spec_solar_days_before_year(1501) == 40178);
    assert(spec_lunar_days_before_year(1502) == 40545 && spec_solar_days_before_year(1502) == 40543);
    assert(spec_lunar_days_before_year(1503) == 40900 && spec_solar_days_before_year(1503) == 40908);
    assert(spec_lunar_days_before_year(1504) == 41254 && spec_solar_days_before_year(1504) == 41273);
    assert(spec_lunar_days_before_year(1505) == 41638 && spec_solar_days_before_year(1505) == 41639);
    assert(spec_lunar_days_before_year(1506) == 41992 && spec_solar_days_before_year(1506) == 42004);
    assert(spec_lunar_days_before_year(1507) == 42346 && spec_solar_days_before_year(1507) == 42369);
    assert(spec_lunar_days_before_year(1508) == 42730 && spec_solar_days_before_year(1508) == 42734);
    assert(spec_lunar_days_before_year(1509) == 43085 && spec_solar_days_before_year(1509) == 43100);
    assert(spec_lunar_days_before_year(1510) == 43469 && spec_solar_days_before_year(1510) == 43465);
    assert(spec_lunar_days_before_year(1511) == 43823 && spec_solar_days_before_year(1511) == 43830);
}

#[verifier::spinoff_prover]
#[verifier::rlimit(50)]
proof fn lemma_day_totals_1551()
    ensures
        spec_lunar_days_before_year(1551) == 58440,
        spec_solar_days_before_year(1551) == 58440,
{
    lemma_day_totals_1511();
    reveal_with_fuel(spec_lunar_days_before_year, 2);
    reveal_with_fuel(spec_solar_days_before_year, 2);
    assert(spec_lunar_days_before_year(1512) == 44178 && spec_solar_days_before_year(1512) == 44195);
    assert(spec_lunar_days_before_year(1513) == 44562 && spec_solar_days_before_year(1513) == 44561);
    assert(spec_lunar_days_before_year(1514) == 44916 && spec_solar_days_before_year(1514) == 44926);
    assert(spec_lunar_days_before_year(1515) == 45270 && spec_solar_days_before_year(1515) == 45291);
    assert(spec_lunar_days_before_year(1516) == 45654 && spec_solar_days_before_year(1516) == 45656);
    assert(spec_lunar_days_before_year(1517) == 46008 && spec_solar_days_before_year(1517) == 46022);
    assert(spec_lunar_days_before_year(1518) == 46392 && spec_solar_days_before_year(1518) == 46387);
    assert(spec_lunar_days_before_year(1519) == 46747 && spec_solar_days_before_year(1519) == 46752);
    assert(spec_lunar_days_before_year(1520) == 47101 && spec_solar_days_before_year(1520) == 47117);
    assert(spec_lunar_days_before_year(1521) == 47485 && spec_solar_days_before_year(1521) == 47483);
    assert(spec_lunar_days_before_year(1522) == 47840 && spec_solar_days_before_year(1522) == 47848);
    assert(spec_lunar_days_before_year(1523) == 48194 && spec_solar_days_before_year(1523) == 48213);
    assert(spec_lunar_days_before_year(1524) == 48577 && spec_solar_days_before_year(1524) == 48578);
    assert(spec_lunar_days_before_year(1525) == 48931 && spec_solar_days_before_year(1525) == 48944);
    assert(spec_lunar_days_before_year(1526) == 49315 && spec_solar_days_before_year(1526) == 49309);
    assert(spec_lunar_days_before_year(1527) == 49670 && spec_solar_days_before_year(1527) == 49674);
    assert(spec_lunar_days_before_year(1528) == 50025 && spec_solar_days_before_year(1528) == 50039);
    assert(spec_lunar_days_before_year(1529) == 50409 && spec_solar_days_before_year(1529) == 50405);
    assert(spec_lunar_days_before_year(1530) == 50763 && spec_solar_days_before_year(1530) == 50770);
    assert(spec_lunar_days_before_year(1531) == 51117 && spec_solar_days_before_year(1531) == 51135);
    assert(spec_lunar_days_before_year(1532) == 51501 && spec_solar_days_before_year(1532) == 51500);
    assert(spec_lunar_days_before_year(1533) == 51855 && spec_solar_days_before_year(1533) == 51866);
    assert(spec_lunar_days_before_year(1534) == 52209 && spec_solar_days_before_year(1534) == 52231);
    assert(spec_lunar_days_before_year(1535) == 52593 && spec_solar_days_before_year(1535) == 52596);
    assert(spec_lunar_days_before_year(1536) == 52948 && spec_solar_days_before_year(1536) == 52961);
    assert(spec_lunar_days_before_year(1537) == 53332 && spec_solar_days_before_year(1537) == 53327);
    assert(spec_lunar_days_before_year(1538) == 53687 && spec_solar_days_before_year(1538) == 53692);
    assert(spec_lunar_days_before_year(1539) == 54041 && spec_solar_days_before_year(1539) == 54057);
    assert(spec_lunar_days_before_year(1540) == 54425 && spec_solar_days_before_year(1540) == 54422);
    assert(spec_lunar_days_before_year(1541) == 54779 && spec_solar_days_before_year(1541) == 54788);
    assert(spec_lunar_days_before_year(1542) == 55133 && spec_solar_days_before_year(1542) == 55153);
    assert(spec_lunar_days_before_year(1543) == 55517 && spec_solar_days_before_year(1543) == 55518);
    assert(spec_lunar_days_before_year(1544) == 55871 && spec_solar_days_before_year(1544) == 55883);
    assert(spec_lunar_days_before_year(1545) == 56226 && spec_solar_days_before_year(1545) == 56249);
    assert(spec_lunar_days_before_year(1546) == 56610 && spec_solar_days_before_year(1546) == 56614);
    assert(spec_lunar_days_before_year(1547) == 56965 && spec_solar_days_before_year(1547) == 56979);
    assert(spec_lunar_days_before_year(1548) == 57349 && spec_solar_days_before_year(1548) == 57344);
    assert(spec_lunar_days_before_year(1549) == 57703 && spec_solar_days_before_year(1549) == 57710);
    assert(spec_lunar_days_before_year(1550) == 58057 && spec_solar_days_before_year(1550) == 58075);
    assert(spec_lunar_days_before_year(1551) == 58440 && spec_solar_days_before_year(1551) == 58440);
}

#[verifier::spinoff_prover]
#[verifier::rlimit(50)]
proof fn lemma_day_totals_1591()
    ensures
        spec_lunar_days_before_year(1591) == 73029,
        spec_solar_days_before_year(1591) == 73040,
{
    lemma_day_totals_1551();
    reveal_with_fuel(spec_lunar_days_before_year, 2);
    reveal_with_fuel(spec_solar_days_before_year, 2);
    assert(spec_lunar_days_before_year(1552) == 58795 && spec_solar_days_before_year(1552) == 58805);
    assert(spec_lunar_days_before_year(1553) == 59149 && spec_solar_days_before_year(1553) == 59171);
    assert(spec_lunar_days_before_year(1554) == 59533 && spec_solar_days_before_year(1554) == 59536);
    assert(spec_lunar_days_before_year(1555) == 59888 && spec_solar_days_before_year(1555) == 59901);
    assert(spec_lunar_days_before_year(1556) == 60272 && spec_solar_days_before_year(1556) == 60266);
    assert(spec_lunar_days_before_year(1557) == 60626 && spec_solar_days_before_year(1557) == 60632);
    assert(spec_lunar_days_before_year(1558) == 60981 && spec_solar_days_before_year(1558) == 60997);
    assert(spec_lunar_days_before_year(1559) == 61364 && spec_solar_days_before_year(1559) == 61362);
    assert(spec_lunar_days_before_year(1560) == 61718 && spec_solar_days_before_year(1560) == 61727);
    assert(spec_lunar_days_before_year(1561) == 62073 && spec_solar_days_before_year(1561) == 62093);
    assert(spec_lunar_days_before_year(1562) == 62457 && spec_solar_days_before_year(1562) == 62458);
    assert(spec_lunar_days_before_year(1563) == 62811 && spec_solar_days_before_year(1563) == 62823);
    assert(spec_lunar_days_before_year(1564) == 63166 && spec_solar_days_before_year(1564) == 63188);
    assert(spec_lunar_days_before_year(1565) == 63550 && spec_solar_days_before_year(1565) == 63554);
    assert(spec_lunar_days_before_year(1566) == 63904 && spec_solar_days_before_year(1566) == 63919);
    assert(spec_lunar_days_before_year(1567) == 64288 && spec_solar_days_before_year(1567) == 64284);
    assert(spec_lunar_days_before_year(1568) == 64642 && spec_solar_days_before_year(1568) == 64649);
    assert(spec_lunar_days_before_year(1569) == 64996 && spec_solar_days_before_year(1569) == 65015);
    assert(spec_lunar_days_before_year(1570) == 65380 && spec_solar_days_before_year(1570) == 65380);
    assert(spec_lunar_days_before_year(1571) == 65735 && spec_solar_days_before_year(1571) == 65745);
    assert(spec_lunar_days_before_year(1572) == 66089 && spec_solar_days_before_year(1572) == 66110);
    assert(spec_lunar_days_before_year(1573) == 66473 && spec_solar_days_before_year(1573) == 66476);
    assert(spec_lunar_days_before_year(1574) == 66828 && spec_solar_days_before_year(1574) == 66841);
    assert(spec_lunar_days_before_year(1575) == 67212 && spec_solar_days_before_year(1575) == 67206);
    assert(spec_lunar_days_before_year(1576) == 67566 && spec_solar_days_before_year(1576) == 67571);
    assert(spec_lunar_days_before_year(1577) == 67920 && spec_solar_days_before_year(1577) == 67937);
    assert(spec_lunar_days_before_year(1578) == 68304 && spec_solar_days_before_year(1578) == 68302);
    assert(spec_lunar_days_before_year(1579) == 68658 && spec_solar_days_before_year(1579) == 68667);
    assert(spec_lunar_days_before_year(1580) == 69012 && spec_solar_days_before_year(1580) == 69032);
    assert(spec_lunar_days_before_year(1581) == 69397 && spec_solar_days_before_year(1581) == 69398);
    assert(spec_lunar_days_before_year(1582) == 69751 && spec_solar_days_before_year(1582) == 69763);
    assert(spec_lunar_days_before_year(1583) == 70106 && spec_solar_days_before_year(1583) == 70118);
    assert(spec_lunar_days_before_year(1584) == 70490 && spec_solar_days_before_year(1584) == 70483);
    assert(spec_lunar_days_before_year(1585) == 70844 && spec_solar_days_before_year(1585) == 70849);
    assert(spec_lunar_days_before_year(1586) == 71227 && spec_solar_days_before_year(1586) == 71214);
    assert(spec_lunar_days_before_year(1587) == 71581 && spec_solar_days_before_year(1587) == 71579);
    assert(spec_lunar_days_before_year(1588) == 71936 && spec_solar_days_before_year(1588) == 71944);
    assert(spec_lunar_days_before_year(1589) == 72320 && spec_solar_days_before_year(1589) == 72310);
    assert(spec_lunar_days_before_year(1590) == 72675 && spec_solar_days_before_year(1590) == 72675);
    assert(spec_lunar_days_before_year(1591) == 73029 && spec_solar_days_before_year(1591) == 73040);
}

#[verifier::spinoff_prover]
#[verifier::rlimit(50)]
proof fn lemma_day_totals_1631()
    ensures
        spec_lunar_days_before_year(1631) == 87646,
        spec_solar_days_before_year(1631) == 87650,
{
    lemma_day_totals_1591();
    reveal_with_fuel(spec_lunar_days_before_year, 2);
    reveal_with_fuel(spec_solar_days_before_year, 2);
    assert(spec_lunar_days_before_year(1592) == 73413 && spec_solar_days_before_year(1592) == 73405);
    assert(spec_lunar_days_before_year(1593) == 73767 && spec_solar_days_before_year(1593) == 73771);
    assert(spec_lunar_days_before_year(1594) == 74151 && spec_solar_days_before_year(1594) == 74136);
    assert(spec_lunar_days_before_year(1595) == 74505 && spec_solar_days_before_year(1595) == 74501);
    assert(spec_lunar_days_before_year(1596) == 74859 && spec_solar_days_before_year(1596) == 74866);
    assert(spec_lunar_days_before_year(1597) == 75243 && spec_solar_days_before_year(1597) == 75232);
    assert(spec_lunar_days_before_year(1598) == 75598 && spec_solar_days_before_year(1598) == 75597);
    assert(spec_lunar_days_before_year(1599) == 75953 && spec_solar_days_before_year(1599) == 75962);
    assert(spec_lunar_days_before_year(1600) == 76337 && spec_solar_days_before_year(1600) == 76327);
    assert(spec_lunar_days_before_year(1601) == 76691 && spec_solar_days_before_year(1601) == 76693);
    assert(spec_lunar_days_before_year(1602) == 77045 && spec_solar_days_before_year(1602) == 77058);
    assert(spec_lunar_days_before_year(1603) == 77429 && spec_solar_days_before_year(1603) == 77423);
    assert(spec_lunar_days_before_year(1604) == 77783 && spec_solar_days_before_year(1604) == 77788);
    assert(spec_lunar_days_before_year(1605) == 78167 && spec_solar_days_before_year(1605) == 78154);
    assert(spec_lunar_days_before_year(1606) == 78521 && spec_solar_days_before_year(1606) == 78519);
    assert(spec_lunar_days_before_year(1607) == 78876 && spec_solar_days_before_year(1607) == 78884);
    assert(spec_lunar_days_before_year(1608) == 79260 && spec_solar_days_before_year(1608) == 79249);
    assert(spec_lunar_days_before_year(1609) == 79615 && spec_solar_days_before_year(1609) == 79615);
    assert(spec_lunar_days_before_year(1610) == 79969 && spec_solar_days_before_year(1610) == 79980);
    assert(spec_lunar_days_before_year(1611) == 80353 && spec_solar_days_before_year(1611) == 80345);
    assert(spec_lunar_days_before_year(1612) == 80707 && spec_solar_days_before_year(1612) == 80710);
    assert(spec_lunar_days_before_year(1613) == 81090 && spec_solar_days_before_year(1613) == 81076);
    assert(spec_lunar_days_before_year(1614) == 81445 && spec_solar_days_before_year(1614) == 81441);
    assert(spec_lunar_days_before_year(1615) == 81799 && spec_solar_days_before_year(1615) == 81806);
    assert(spec_lunar_days_before_year(1616) == 82183 && spec_solar_days_before_year(1616) == 82171);
    assert(spec_lunar_days_before_year(1617) == 82538 && spec_solar_days_before_year(1617) == 82537);
    assert(spec_lunar_days_before_year(1618) == 82892 && spec_solar_days_before_year(1618) == 82902);
    assert(spec_lunar_days_before_year(1619) == 83276 && spec_solar_days_before_year(1619) == 83267);
    assert(spec_lunar_days_before_year(1620) == 83631 && spec_solar_days_before_year(1620) == 83632);
    assert(spec_lunar_days_before_year(1621) == 83984 && spec_solar_days_before_year(1621) == 83998);
    assert(spec_lunar_days_before_year(1622) == 84368 && spec_solar_days_before_year(1622) == 84363);
    assert(spec_lunar_days_before_year(1623) == 84723 && spec_solar_days_before_year(1623) == 84728);
    assert(spec_lunar_days_before_year(1624) == 85107 && spec_solar_days_before_year(1624) == 85093);
    assert(spec_lunar_days_before_year(1625) == 85461 && spec_solar_days_before_year(1625) == 85459);
    assert(spec_lunar_days_before_year(1626) == 85816 && spec_solar_days_before_year(1626) == 85824);
    assert(spec_lunar_days_before_year(1627) == 86200 && spec_solar_days_before_year(1627) == 86189);
    assert(spec_lunar_days_before_year(1628) == 86554 && spec_solar_days_before_year(1628) == 86554);
    assert(spec_lunar_days_before_year(1629) == 86908 && spec_solar_days_before_year(1629) == 86920);
    assert(spec_lunar_days_before_year(1630) == 87292 && spec_solar_days_before_year(1630) == 87285);
    assert(spec_lunar_days_before_year(1631) == 87646 && spec_solar_days_before_year(1631) == 87650);
}

#[verifier::spinoff_prover]
#[verifier::rlimit(50)]
proof fn lemma_day_totals_1671()
    ensures
        spec_lunar_days_before_year(1671) == 102264,
        spec_solar_days_before_year(1671) == 102260,
{
    lemma_day_totals_1631();
    reveal_with_fuel(spec_lunar_days_before_year, 2);
    reveal_with_fuel(spec_solar_days_before_year, 2);
    assert(spec_lunar_days_before_year(1632) == 88030 && spec_solar_days_before_year(1632) == 88015);
    assert(spec_lunar_days_before_year(1633) == 88384 && spec_solar_days_before_year(1633) == 88381);
    assert(spec_lunar_days_before_year(1634) == 88739 && spec_solar_days_before_year(1634) == 88746);
    assert(spec_lunar_days_before_year(1635) == 89123 && spec_solar_days_before_year(1635) == 89111);
    assert(spec_lunar_days_before_year(1636) == 89478 && spec_solar_days_before_year(1636) == 89476);
    assert(spec_lunar_days_before_year(1637) == 89832 && spec_solar_days_before_year(1637) == 89842);
    assert(spec_lunar_days_before_year(1638) == 90216 && spec_solar_days_before_year(1638) == 90207);
    assert(spec_lunar_days_before_year(1639) == 90570 && spec_solar_days_before_year(1639) == 90572);
    assert(spec_lunar_days_before_year(1640) == 90924 && spec_solar_days_before_year(1640) == 90937);
    assert(spec_lunar_days_before_year(1641) == 91308 && spec_solar_days_before_year(1641) == 91303);
    assert(spec_lunar_days_before_year(1642) == 91662 && spec_solar_days_before_year(1642) == 91668);
    assert(spec_lunar_days_before_year(1643) == 92047 && spec_solar_days_before_year(1643) == 92033);
    assert(spec_lunar_days_before_year(1644) == 92401 && spec_solar_days_before_year(1644) == 92398);
    assert(spec_lunar_days_before_year(1645) == 92756 && spec_solar_days_before_year(1645) == 92764);
    assert(spec_lunar_days_before_year(1646) == 93140 && spec_solar_days_before_year(1646) == 93129);
    assert(spec_lunar_days_before_year(1647) == 93494 && spec_solar_days_before_year(1647) == 93494);
    assert(spec_lunar_days_before_year(1648) == 93848 && spec_solar_days_before_year(1648) == 93859);
    assert(spec_lunar_days_before_year(1649) == 94231 && spec_solar_days_before_year(1649) == 94225);
    assert(spec_lunar_days_before_year(1650) == 94586 && spec_solar_days_before_year(1650) == 94590);
    assert(spec_lunar_days_before_year(1651) == 94970 && spec_solar_days_before_year(1651) == 94955);
    assert(spec_lunar_days_before_year(1652) == 95325 && spec_solar_days_before_year(1652) == 95320);
    assert(spec_lunar_days_before_year(1653) == 95679 && spec_solar_days_before_year(1653) == 95686);
    assert(spec_lunar_days_before_year(1654) == 96063 && spec_solar_days_before_year(1654) == 96051);
    assert(spec_lunar_days_before_year(1655) == 96417 && spec_solar_days_before_year(1655) == 96416);
    assert(spec_lunar_days_before_year(1656) == 96771 && spec_solar_days_before_year(1656) == 96781);
    assert(spec_lunar_days_before_year(1657) == 97155 && spec_solar_days_before_year(1657) == 97147);
    assert(spec_lunar_days_before_year(1658) == 97509 && spec_solar_days_before_year(1658) == 97512);
    assert(spec_lunar_days_before_year(1659) == 97864 && spec_solar_days_before_year(1659) == 97877);
    assert(spec_lunar_days_before_year(1660) == 98248 && spec_solar_days_before_year(1660) == 98242);
    assert(spec_lunar_days_before_year(1661) == 98602 && spec_solar_days_before_year(1661) == 98608);
    assert(spec_lunar_days_before_year(1662) == 98986 && spec_solar_days_before_year(1662) == 98973);
    assert(spec_lunar_days_before_year(1663) == 99341 && spec_solar_days_before_year(1663) == 99338);
    assert(spec_lunar_days_before_year(1664) == 99695 && spec_solar_days_before_year(1664) == 99703);
    assert(spec_lunar_days_before_year(1665) == 100079 && spec_solar_days_before_year(1665) == 100069);
    assert(spec_lunar_days_before_year(1666) == 100433 && spec_solar_days_before_year(1666) == 100434);
    assert(spec_lunar_days_before_year(1667) == 100787 && spec_solar_days_before_year(1667) == 100799);
    assert(spec_lunar_days_before_year(1668) == 101171 && spec_solar_days_before_year(1668) == 101164);
    assert(spec_lunar_days_before_year(1669) == 101526 && spec_solar_days_before_year(1669) == 101530);
    assert(spec_lunar_days_before_year(1670) == 101880 && spec_solar_days_before_year(1670) == 101895);
    assert(spec_lunar_days_before_year(1671) == 102264 && spec_solar_days_before_year(1671) == 102260);
}

#[verifier::spinoff_prover]
#[verifier::rlimit(50)]
proof fn lemma_day_totals_1711()
    ensures
        spec_lunar_days_before_year(1711) == 116881,
        spec_solar_days_before_year(1711) == 116869,
{
    lemma_day_totals_1671();
    reveal_with_fuel(spec_lunar_days_before_year, 2);
    reveal_with_fuel(spec_solar_days_before_year, 2);
    assert(spec_lunar_days_before_year(1672) == 102619 && spec_solar_days_before_year(1672) == 102625);
    assert(spec_lunar_days_before_year(1673) == 103003 && spec_solar_days_before_year(1673) == 102991);
    assert(spec_lunar_days_before_year(1674) == 103357 && spec_solar_days_before_year(1674) == 103356);
    assert(spec_lunar_days_before_year(1675) == 103711 && spec_solar_days_before_year(1675) == 103721);
    assert(spec_lunar_days_before_year(1676) == 104095 && spec_solar_days_before_year(1676) == 104086);
    assert(spec_lunar_days_before_year(1677) == 104449 && spec_solar_days_before_year(1677) == 104452);
    assert(spec_lunar_days_before_year(1678) == 104804 && spec_solar_days_before_year(1678) == 104817);
    assert(spec_lunar_days_before_year(1679) == 105188 && spec_solar_days_before_year(1679) == 105182);
    assert(spec_lunar_days_before_year(1680) == 105542 && spec_solar_days_before_year(1680) == 105547);
    assert(spec_lunar_days_before_year(1681) == 105926 && spec_solar_days_before_year(1681) == 105913);
    assert(spec_lunar_days_before_year(1682) == 106280 && spec_solar_days_before_year(1682) == 106278);
    assert(spec_lunar_days_before_year(1683) == 106634 && spec_solar_days_before_year(1683) == 106643);
    assert(spec_lunar_days_before_year(1684) == 107018 && spec_solar_days_before_year(1684) == 107008);
    assert(spec_lunar_days_before_year(1685) == 107372 && spec_solar_days_before_year(1685) == 107374);
    assert(spec_lunar_days_before_year(1686) == 107727 && spec_solar_days_before_year(1686) == 107739);
    assert(spec_lunar_days_before_year(1687) == 108111 && spec_solar_days_before_year(1687) == 108104);
    assert(spec_lunar_days_before_year(1688) == 108466 && spec_solar_days_before_year(1688) == 108469);
    assert(spec_lunar_days_before_year(1689) == 108820 && spec_solar_days_before_year(1689) == 108835);
    assert(spec_lunar_days_before_year(1690) == 109204 && spec_solar_days_before_year(1690) == 109200);
    assert(spec_lunar_days_before_year(1691) == 109558 && spec_solar_days_before_year(1691) == 109565);
    assert(spec_lunar_days_before_year(1692) == 109942 && spec_solar_days_before_year(1692) == 109930);
    assert(spec_lunar_days_before_year(1693) == 110296 && spec_solar_days_before_year(1693) == 110296);
    assert(spec_lunar_days_before_year(1694) == 110650 && spec_solar_days_before_year(1694) == 110661);
    assert(spec_lunar_days_before_year(1695) == 111034 && spec_solar_days_before_year(1695) == 111026);
    assert(spec_lunar_days_before_year(1696) == 111389 && spec_solar_days_before_year(1696) == 111391);
    assert(spec_lunar_days_before_year(1697) == 111744 && spec_solar_days_before_year(1697) == 111757);
    assert(spec_lunar_days_before_year(1698) == 112128 && spec_solar_days_before_year(1698) == 112122);
    assert(spec_lunar_days_before_year(1699) == 112482 && spec_solar_days_before_year(1699) == 112487);
    assert(spec_lunar_days_before_year(1700) == 112866 && spec_solar_days_before_year(1700) == 112852);
    assert(spec_lunar_days_before_year(1701) == 113220 && spec_solar_days_before_year(1701) == 113217);
    assert(spec_lunar_days_before_year(1702) == 113574 && spec_solar_days_before_year(1702) == 113582);
    assert(spec_lunar_days_before_year(1703) == 113958 && spec_solar_days_before_year(1703) == 113947);
    assert(spec_lunar_days_before_year(1704) == 114312 && spec_solar_days_before_year(1704) == 114312);
    assert(spec_lunar_days_before_year(1705) == 114667 && spec_solar_days_before_year(1705) == 114678);
    assert(spec_lunar_days_before_year(1706) == 115051 && spec_solar_days_before_year(1706) == 115043);
    assert(spec_lunar_days_before_year(1707) == 115406 && spec_solar_days_before_year(1707) == 115408);
    assert(spec_lunar_days_before_year(1708) == 115760 && spec_solar_days_before_year(1708) == 115773);
    assert(spec_lunar_days_before_year(1709) == 116144 && spec_solar_days_before_year(1709) == 116139);
    assert(spec_lunar_days_before_year(1710) == 116498 && spec_solar_days_before_year(1710) == 116504);
    assert(spec_lunar_days_before_year(1711) == 116881 && spec_solar_days_before_year(1711) == 116869);
}

#[verifier::spinoff_prover]
#[verifier::rlimit(50)]
proof fn lemma_day_totals_1751()
    ensures
        spec_lunar_days_before_year(1751) == 131470,
        spec_solar_days_before_year(1751) == 131479,
{
    lemma_day_totals_1711();
    reveal_with_fuel(spec_lunar_days_before_year, 2);
    reveal_with_fuel(spec_solar_days_before_year, 2);
    assert(spec_lunar_days_before_year(1712) == 117236 && spec_solar_days_before_year(1712) == 117234);
    assert(spec_lunar_days_before_year(1713) == 117590 && spec_solar_days_before_year(1713) == 117600);
    assert(spec_lunar_days_before_year(1714) == 117974 && spec_solar_days_before_year(1714) == 117965);
    assert(spec_lunar_days_before_year(1715) == 118329 && spec_solar_days_before_year(1715) == 118330);
    assert(spec_lunar_days_before_year(1716) == 118683 && spec_solar_days_before_year(1716) == 118695);
    assert(spec_lunar_days_before_year(1717) == 119067 && spec_solar_days_before_year(1717) == 119061);
    assert(spec_lunar_days_before_year(1718) == 119421 && spec_solar_days_before_year(1718) == 119426);
    assert(spec_lunar_days_before_year(1719) == 119805 && spec_solar_days_before_year(1719) == 119791);
    assert(spec_lunar_days_before_year(1720) == 120159 && spec_solar_days_before_year(1720) == 120156);
    assert(spec_lunar_days_before_year(1721) == 120514 && spec_solar_days_before_year(1721) == 120522);
    assert(spec_lunar_days_before_year(1722) == 120898 && spec_solar_days_before_year(1722) == 120887);
    assert(spec_lunar_days_before_year(1723) == 121252 && spec_solar_days_before_year(1723) == 121252);
    assert(spec_lunar_days_before_year(1724) == 121607 && spec_solar_days_before_year(1724) == 121617);
    assert(spec_lunar_days_before_year(1725) == 121991 && spec_solar_days_before_year(1725) == 121983);
    assert(spec_lunar_days_before_year(1726) == 122345 && spec_solar_days_before_year(1726) == 122348);
    assert(spec_lunar_days_before_year(1727) == 122699 && spec_solar_days_before_year(1727) == 122713);
    assert(spec_lunar_days_before_year(1728) == 123083 && spec_solar_days_before_year(1728) == 123078);
    assert(spec_lunar_days_before_year(1729) == 123437 && spec_solar_days_before_year(1729) == 123444);
    assert(spec_lunar_days_before_year(1730) == 123821 && spec_solar_days_before_year(1730) == 123809);
    assert(spec_lunar_days_before_year(1731) == 124176 && spec_solar_days_before_year(1731) == 124174);
    assert(spec_lunar_days_before_year(1732) == 124530 && spec_solar_days_before_year(1732) == 124539);
    assert(spec_lunar_days_before_year(1733) == 124914 && spec_solar_days_before_year(1733) == 124905);
    assert(spec_lunar_days_before_year(1734) == 125269 && spec_solar_days_before_year(1734) == 125270);
    assert(spec_lunar_days_before_year(1735) == 125623 && spec_solar_days_before_year(1735) == 125635);
    assert(spec_lunar_days_before_year(1736) == 126007 && spec_solar_days_before_year(1736) == 126000);
    assert(spec_lunar_days_before_year(1737) == 126361 && spec_solar_days_before_year(1737) == 126366);
    assert(spec_lunar_days_before_year(1738) == 126745 && spec_solar_days_before_year(1738) == 126731);
    assert(spec_lunar_days_before_year(1739) == 127099 && spec_solar_days_before_year(1739) == 127096);
    assert(spec_lunar_days_before_year(1740) == 127454 && spec_solar_days_before_year(1740) == 127461);
    assert(spec_lunar_days_before_year(1741) == 127838 && spec_solar_days_before_year(1741) == 127827);
    assert(spec_lunar_days_before_year(1742) == 128192 && spec_solar_days_before_year(1742) == 128192);
    assert(spec_lunar_days_before_year(1743) == 128547 && spec_solar_days_before_year(1743) == 128557);
    assert(spec_lunar_days_before_year(1744) == 128930 && spec_solar_days_before_year(1744) == 128922);
    assert(spec_lunar_days_before_year(1745) == 129284 && spec_solar_days_before_year(1745) == 129288);
    assert(spec_lunar_days_before_year(1746) == 129639 && spec_solar_days_before_year(1746) == 129653);
    assert(spec_lunar_days_before_year(1747) == 130022 && spec_solar_days_before_year(1747) == 130018);
    assert(spec_lunar_days_before_year(1748) == 130377 && spec_solar_days_before_year(1748) == 130383);
    assert(spec_lunar_days_before_year(1749) == 130761 && spec_solar_days_before_year(1749) == 130749);
    assert(spec_lunar_days_before_year(1750) == 131116 && spec_solar_days_before_year(1750) == 131114);
    assert(spec_lunar_days_before_year(1751) == 131470 && spec_solar_days_before_year(1751) == 131479);
}

#[verifier::spinoff_prover]
#[verifier::rlimit(50)]
proof fn lemma_day_totals_1791()
    ensures
        spec_lunar_days_before_year(1791) == 146087,
        spec_solar_days_before_year(1791) == 146089,
{
    lemma_day_totals_1751();
    reveal_with_fuel(spec_lunar_days_before_year, 2);
    reveal_with_fuel(spec_solar_days_before_year, 2);
    assert(spec_lunar_days_before_year(1752) == 131854 && spec_solar_days_before_year(1752) == 131844);
    assert(spec_lunar_days_before_year(1753) == 132208 && spec_solar_days_before_year(1753) == 132210);
    assert(spec_lunar_days_before_year(1754) == 132562 && spec_solar_days_before_year(1754) == 132575);
    assert(spec_lunar_days_before_year(1755) == 132946 && spec_solar_days_before_year(1755) == 132940);
    assert(spec_lunar_days_before_year(1756) == 133300 && spec_solar_days_before_year(1756) == 133305);
    assert(spec_lunar_days_before_year(1757) == 133684 && spec_solar_days_before_year(1757) == 133671);
    assert(spec_lunar_days_before_year(1758) == 134039 && spec_solar_days_before_year(1758) == 134036);
    assert(spec_lunar_days_before_year(1759) == 134394 && spec_solar_days_before_year(1759) == 134401);
    assert(spec_lunar_days_before_year(1760) == 134778 && spec_solar_days_before_year(1760) == 134766);
    assert(spec_lunar_days_before_year(1761) == 135132 && spec_solar_days_before_year(1761) == 135132);
    assert(spec_lunar_days_before_year(1762) == 135486 && spec_solar_days_before_year(1762) == 135497);
    assert(spec_lunar_days_before_year(1763) == 135870 && spec_solar_days_before_year(1763) == 135862);
    assert(spec_lunar_days_before_year(1764) == 136224 && spec_solar_days_before_year(1764) == 136227);
    assert(spec_lunar_days_before_year(1765) == 136578 && spec_solar_days_before_year(1765) == 136593);
    assert(spec_lunar_days_before_year(1766) == 136962 && spec_solar_days_before_year(1766) == 136958);
    assert(spec_lunar_days_before_year(1767) == 137317 && spec_solar_days_before_year(1767) == 137323);
    assert(spec_lunar_days_before_year(1768) == 137701 && spec_solar_days_before_year(1768) == 137688);
    assert(spec_lunar_days_before_year(1769) == 138056 && spec_solar_days_before_year(1769) == 138054);
    assert(spec_lunar_days_before_year(1770) == 138410 && spec_solar_days_before_year(1770) == 138419);
    assert(spec_lunar_days_before_year(1771) == 138794 && spec_solar_days_before_year(1771) == 138784);
    assert(spec_lunar_days_before_year(1772) == 139148 && spec_solar_days_before_year(1772) == 139149);
    assert(spec_lunar_days_before_year(1773) == 139502 && spec_solar_days_before_year(1773) == 139515);
    assert(spec_lunar_days_before_year(1774) == 139886 && spec_solar_days_before_year(1774) == 139880);
    assert(spec_lunar_days_before_year(1775) == 140240 && spec_solar_days_before_year(1775) == 140245);
    assert(spec_lunar_days_before_year(1776) == 140624 && spec_solar_days_before_year(1776) == 140610);
    assert(spec_lunar_days_before_year(1777) == 140979 && spec_solar_days_before_year(1777) == 140976);
    assert(spec_lunar_days_before_year(1778) == 141333 && spec_solar_days_before_year(1778) == 141341);
    assert(spec_lunar_days_before_year(1779) == 141717 && spec_solar_days_before_year(1779) == 141706);
    assert(spec_lunar_days_before_year(1780) == 142071 && spec_solar_days_before_year(1780) == 142071);
    assert(spec_lunar_days_before_year(1781) == 142425 && spec_solar_days_before_year(1781) == 142437);
    assert(spec_lunar_days_before_year(1782) == 142809 && spec_solar_days_before_year(1782) == 142802);
    assert(spec_lunar_days_before_year(1783) == 143164 && spec_solar_days_before_year(1783) == 143167);
    assert(spec_lunar_days_before_year(1784) == 143518 && spec_solar_days_before_year(1784) == 143532);
    assert(spec_lunar_days_before_year(1785) == 143902 && spec_solar_days_before_year(1785) == 143898);
    assert(spec_lunar_days_before_year(1786) == 144257 && spec_solar_days_before_year(1786) == 144263);
    assert(spec_lunar_days_before_year(1787) == 144641 && spec_solar_days_before_year(1787) == 144628);
    assert(spec_lunar_days_before_year(1788) == 144995 && spec_solar_days_before_year(1788) == 144993);
    assert(spec_lunar_days_before_year(1789) == 145349 && spec_solar_days_before_year(1789) == 145359);
    assert(spec_lunar_days_before_year(1790) == 145733 && spec_solar_days_before_year(1790) == 145724);
    assert(spec_lunar_days_before_year(1791) == 146087 && spec_solar_days_before_year(1791) == 146089);
}

#[verifier::spinoff_prover]
#[verifier::rlimit(50)]
proof fn lemma_day_totals_1831()
    ensures
        spec_lunar_days_before_year(1831) == 160706,
        spec_solar_days_before_year(1831) == 160698,
{
    lemma_day_totals_1791();
    reveal_with_fuel(spec_lunar_days_before_year, 2);
    reveal_with_fuel(spec_solar_days_before_year, 2);
    assert(spec_lunar_days_before_year(1792) == 146442 && spec_solar_days_before_year(1792) == 146454);
    assert(spec_lunar_days_before_year(1793) == 146826 && spec_solar_days_before_year(1793) == 146820);
    assert(spec_lunar_days_before_year(1794) == 147180 && spec_solar_days_before_year(1794) == 147185);
    assert(spec_lunar_days_before_year(1795) == 147535 && spec_solar_days_before_year(1795) == 147550);
    assert(spec_lunar_days_before_year(1796) == 147919 && spec_solar_days_before_year(1796) == 147915);
    assert(spec_lunar_days_before_year(1797) == 148273 && spec_solar_days_before_year(1797) == 148281);
    assert(spec_lunar_days_before_year(1798) == 148657 && spec_solar_days_before_year(1798) == 148646);
    assert(spec_lunar_days_before_year(1799) == 149011 && spec_solar_days_before_year(1799) == 149011);
    assert(spec_lunar_days_before_year(1800) == 149365 && spec_solar_days_before_year(1800) == 149376);
    assert(spec_lunar_days_before_year(1801) == 149749 && spec_solar_days_before_year(1801) == 149741);
    assert(spec_lunar_days_before_year(1802) == 150104 && spec_solar_days_before_year(1802) == 150106);
    assert(spec_lunar_days_before_year(1803) == 150458 && spec_solar_days_before_year(1803) == 150471);
    assert(spec_lunar_days_before_year(1804) == 150842 && spec_solar_days_before_year(1804) == 150836);
    assert(spec_lunar_days_before_year(1805) == 151197 && spec_solar_days_before_year(1805) == 151202);
    assert(spec_lunar_days_before_year(1806) == 151580 && spec_solar_days_before_year(1806) == 151567);
    assert(spec_lunar_days_before_year(1807) == 151934 && spec_solar_days_before_year(1807) == 151932);
    assert(spec_lunar_days_before_year(1808) == 152289 && spec_solar_days_before_year(1808) == 152297);
    assert(spec_lunar_days_before_year(1809) == 152672 && spec_solar_days_before_year(1809) == 152663);
    assert(spec_lunar_days_before_year(1810) == 153027 && spec_solar_days_before_year(1810) == 153028);
    assert(spec_lunar_days_before_year(1811) == 153382 && spec_solar_days_before_year(1811) == 153393);
    assert(spec_lunar_days_before_year(1812) == 153766 && spec_solar_days_before_year(1812) == 153758);
    assert(spec_lunar_days_before_year(1813) == 154120 && spec_solar_days_before_year(1813) == 154124);
    assert(spec_lunar_days_before_year(1814) == 154474 && spec_solar_days_before_year(1814) == 154489);
    assert(spec_lunar_days_before_year(1815) == 154858 && spec_solar_days_before_year(1815) == 154854);
    assert(spec_lunar_days_before_year(1816) == 155212 && spec_solar_days_before_year(1816) == 155219);
    assert(spec_lunar_days_before_year(1817) == 155596 && spec_solar_days_before_year(1817) == 155585);
    assert(spec_lunar_days_before_year(1818) == 155950 && spec_solar_days_before_year(1818) == 155950);
    assert(spec_lunar_days_before_year(1819) == 156305 && spec_solar_days_before_year(1819) == 156315);
    assert(spec_lunar_days_before_year(1820) == 156689 && spec_solar_days_before_year(1820) == 156680);
    assert(spec_lunar_days_before_year(1821) == 157044 && spec_solar_days_before_year(1821) == 157046);
    assert(spec_lunar_days_before_year(1822) == 157398 && spec_solar_days_before_year(1822) == 157411);
    assert(spec_lunar_days_before_year(1823) == 157782 && spec_solar_days_before_year(1823) == 157776);
    assert(spec_lunar_days_before_year(1824) == 158136 && spec_solar_days_before_year(1824) == 158141);
    assert(spec_lunar_days_before_year(1825) == 158520 && spec_solar_days_before_year(1825) == 158507);
    assert(spec_lunar_days_before_year(1826) == 158874 && spec_solar_days_before_year(1826) == 158872);
    assert(spec_lunar_days_before_year(1827) == 159228 && spec_solar_days_before_year(1827) == 159237);
    assert(spec_lunar_days_before_year(1828) == 159612 && spec_solar_days_before_year(1828) == 159602);
    assert(spec_lunar_days_before_year(1829) == 159967 && spec_solar_days_before_year(1829) == 159968);
    assert(spec_lunar_days_before_year(1830) == 160322 && spec_solar_days_before_year(1830) == 160333);
    assert(spec_lunar_days_before_year(1831) == 160706 && spec_solar_days_before_year(1831) == 160698);
}

#[verifier::spinoff_prover]
#[verifier::rlimit(50)]
proof fn lemma_day_totals_1871()
    ensures
        spec_lunar_days_before_year(1871) == 175322,
        spec_solar_days_before_year(1871) == 175308,
{
    lemma_day_totals_1831();
    reveal_with_fuel(spec_lunar_days_before_year, 2);
    reveal_with_fuel(spec_solar_days_before_year, 2);
    assert(spec_lunar_days_before_year(1832) == 161060 && spec_solar_days_before_year(1832) == 161063);
    assert(spec_lunar_days_before_year(1833) == 161444 && spec_solar_days_before_year(1833) == 161429);
    assert(spec_lunar_days_before_year(1834) == 161798 && spec_solar_days_before_year(1834) == 161794);
    assert(spec_lunar_days_before_year(1835) == 162152 && spec_solar_days_before_year(1835) == 162159);
    assert(spec_lunar_days_before_year(1836) == 162536 && spec_solar_days_before_year(1836) == 162524);
    assert(spec_lunar_days_before_year(1837) == 162890 && spec_solar_days_before_year(1837) == 162890);
    assert(spec_lunar_days_before_year(1838) == 163245 && spec_solar_days_before_year(1838) == 163255);
    assert(spec_lunar_days_before_year(1839) == 163629 && spec_solar_days_before_year(1839) == 163620);
    assert(spec_lunar_days_before_year(1840) == 163983 && spec_solar_days_before_year(1840) == 163985);
    assert(spec_lunar_days_before_year(1841) == 164338 && spec_solar_days_before_year(1841) == 164351);
    assert(spec_lunar_days_before_year(1842) == 164721 && spec_solar_days_before_year(1842) == 164716);
    assert(spec_lunar_days_before_year(1843) == 165075 && spec_solar_days_before_year(1843) == 165081);
    assert(spec_lunar_days_before_year(1844) == 165459 && spec_solar_days_before_year(1844) == 165446);
    assert(spec_lunar_days_before_year(1845) == 165814 && spec_solar_days_before_year(1845) == 165812);
    assert(spec_lunar_days_before_year(1846) == 166168 && spec_solar_days_before_year(1846) == 166177);
    assert(spec_lunar_days_before_year(1847) == 166552 && spec_solar_days_before_year(1847) == 166542);
    assert(spec_lunar_days_before_year(1848) == 166907 && spec_solar_days_before_year(1848) == 166907);
    assert(spec_lunar_days_before_year(1849) == 167261 && spec_solar_days_before_year(1849) == 167273);
    assert(spec_lunar_days_before_year(1850) == 167645 && spec_solar_days_before_year(1850) == 167638);
    assert(spec_lunar_days_before_year(1851) == 167999 && spec_solar_days_before_year(1851) == 168003);
    assert(spec_lunar_days_before_year(1852) == 168383 && spec_solar_days_before_year(1852) == 168368);
    assert(spec_lunar_days_before_year(1853) == 168737 && spec_solar_days_before_year(1853) == 168734);
    assert(spec_lunar_days_before_year(1854) == 169092 && spec_solar_days_before_year(1854) == 169099);
    assert(spec_lunar_days_before_year(1855) == 169476 && spec_solar_days_before_year(1855) == 169464);
    assert(spec_lunar_days_before_year(1856) == 169830 && spec_solar_days_before_year(1856) == 169829);
    assert(spec_lunar_days_before_year(1857) == 170185 && spec_solar_days_before_year(1857) == 170195);
    assert(spec_lunar_days_before_year(1858) == 170569 && spec_solar_days_before_year(1858) == 170560);
    assert(spec_lunar_days_before_year(1859) == 170923 && spec_solar_days_before_year(1859) == 170925);
    assert(spec_lunar_days_before_year(1860) == 171277 && spec_solar_days_before_year(1860) == 171290);
    assert(spec_lunar_days_before_year(1861) == 171661 && spec_solar_days_before_year(1861) == 171656);
    assert(spec_lunar_days_before_year(1862) == 172015 && spec_solar_days_before_year(1862) == 172021);
    assert(spec_lunar_days_before_year(1863) == 172399 && spec_solar_days_before_year(1863) == 172386);
    assert(spec_lunar_days_before_year(1864) == 172754 && spec_solar_days_before_year(1864) == 172751);
    assert(spec_lunar_days_before_year(1865) == 173108 && spec_solar_days_before_year(1865) == 173117);
    assert(spec_lunar_days_before_year(1866) == 173492 && spec_solar_days_before_year(1866) == 173482);
    assert(spec_lunar_days_before_year(1867) == 173847 && spec_solar_days_before_year(1867) == 173847);
    assert(spec_lunar_days_before_year(1868) == 174201 && spec_solar_days_before_year(1868) == 174212);
    assert(spec_lunar_days_before_year(1869) == 174584 && spec_solar_days_before_year(1869) == 174578);
    assert(spec_lunar_days_before_year(1870) == 174938 && spec_solar_days_before_year(1870) == 174943);
    assert(spec_lunar_days_before_year(1871) == 175322 && spec_solar_days_before_year(1871) == 175308);
}

#[verifier::spinoff_prover]
#[verifier::rlimit(50)]
proof fn lemma_day_totals_1911()
    ensures
        spec_lunar_days_before_year(1911) == 189911,
        spec_solar_days_before_year(1911) == 189917,
{
    lemma_day_totals_1871();
    reveal_with_fuel(spec_lunar_days_before_year, 2);
    reveal_with_fuel(spec_solar_days_before_year, 2);
    assert(spec_lunar_days_before_year(1872) == 175677 && spec_solar_days_before_year(1872) == 175673);
    assert(spec_lunar_days_before_year(1873) == 176032 && spec_solar_days_before_year(1873) == 176039);
    assert(spec_lunar_days_before_year(1874) == 176416 && spec_solar_days_before_year(1874) == 176404);
    assert(spec_lunar_days_before_year(1875) == 176770 && spec_solar_days_before_year(1875) == 176769);
    assert(spec_lunar_days_before_year(1876) == 177124 && spec_solar_days_before_year(1876) == 177134);
    assert(spec_lunar_days_before_year(1877) == 177508 && spec_solar_days_before_year(1877) == 177500);
    assert(spec_lunar_days_before_year(1878) == 177862 && spec_solar_days_before_year(1878) == 177865);
    assert(spec_lunar_days_before_year(1879) == 178216 && spec_solar_days_before_year(1879) == 178230);
    assert(spec_lunar_days_before_year(1880) == 178600 && spec_solar_days_before_year(1880) == 178595);
    assert(spec_lunar_days_before_year(1881) == 178955 && spec_solar_days_before_year(1881) == 178961);
    assert(spec_lunar_days_before_year(1882) == 179339 && spec_solar_days_before_year(1882) == 179326);
    assert(spec_lunar_days_before_year(1883) == 179694 && spec_solar_days_before_year(1883) == 179691);
    assert(spec_lunar_days_before_year(1884) == 180048 && spec_solar_days_before_year(1884) == 180056);
    assert(spec_lunar_days_before_year(1885) == 180432 && spec_solar_days_before_year(1885) == 180422);
    assert(spec_lunar_days_before_year(1886) == 180786 && spec_solar_days_before_year(1886) == 180787);
    assert(spec_lunar_days_before_year(1887) == 181140 && spec_solar_days_before_year(1887) == 181152);
    assert(spec_lunar_days_before_year(1888) == 181524 && spec_solar_days_before_year(1888) == 181517);
    assert(spec_lunar_days_before_year(1889) == 181878 && spec_solar_days_before_year(1889) == 181883);
    assert(spec_lunar_days_before_year(1890) == 182233 && spec_solar_days_before_year(1890) == 182248);
    assert(spec_lunar_days_before_year(1891) == 182617 && spec_solar_days_before_year(1891) == 182613);
    assert(spec_lunar_days_before_year(1892) == 182972 && spec_solar_days_before_year(1892) == 182978);
    assert(spec_lunar_days_before_year(1893) == 183356 && spec_solar_days_before_year(1893) == 183344);
    assert(spec_lunar_days_before_year(1894) == 183710 && spec_solar_days_before_year(1894) == 183709);
    assert(spec_lunar_days_before_year(1895) == 184064 && spec_solar_days_before_year(1895) == 184074);
    assert(spec_lunar_days_before_year(1896) == 184447 && spec_solar_days_before_year(1896) == 184439);
    assert(spec_lunar_days_before_year(1897) == 184802 && spec_solar_days_before_year(1897) == 184805);
    assert(spec_lunar_days_before_year(1898) == 185156 && spec_solar_days_before_year(1898) == 185170);
    assert(spec_lunar_days_before_year(1899) == 185540 && spec_solar_days_before_year(1899) == 185535);
    assert(spec_lunar_days_before_year(1900) == 185895 && spec_solar_days_before_year(1900) == 185900);
    assert(spec_lunar_days_before_year(1901) == 186279 && spec_solar_days_before_year(1901) == 186265);
    assert(spec_lunar_days_before_year(1902) == 186633 && spec_solar_days_before_year(1902) == 186630);
    assert(spec_lunar_days_before_year(1903) == 186988 && spec_solar_days_before_year(1903) == 186995);
    assert(spec_lunar_days_before_year(1904) == 187371 && spec_solar_days_before_year(1904) == 187360);
    assert(spec_lunar_days_before_year(1905) == 187725 && spec_solar_days_before_year(1905) == 187726);
    assert(spec_lunar_days_before_year(1906) == 188080 && spec_solar_days_before_year(1906) == 188091);
    assert(spec_lunar_days_before_year(1907) == 188464 && spec_solar_days_before_year(1907) == 188456);
    assert(spec_lunar_days_before_year(1908) == 188818 && spec_solar_days_before_year(1908) == 188821);
    assert(spec_lunar_days_before_year(1909) == 189173 && spec_solar_days_before_year(1909) == 189187);
    assert(spec_lunar_days_before_year(1910) == 189557 && spec_solar_days_before_year(1910) == 189552);
    assert(spec_lunar_days_before_year(1911) == 189911 && spec_solar_days_before_year(1911) == 189917);
}

#[verifier::spinoff_prover]
#[verifier::rlimit(50)]
proof fn lemma_day_totals_1951()
    ensures
        spec_lunar_days_before_year(1951) == 204528,
        spec_solar_days_before_year(1951) == 204527,
{
    lemma_day_totals_1911();
    reveal_with_fuel(spec_lunar_days_before_year, 2);
    reveal_with_fuel(spec_solar_days_before_year, 2);
    assert(spec_lunar_days_before_year(1912) == 190295 && spec_solar_days_before_year(1912) == 190282);
    assert(spec_lunar_days_before_year(1913) == 190649 && spec_solar_days_before_year(1913) == 190648);
    assert(spec_lunar_days_before_year(1914) == 191003 && spec_solar_days_before_year(1914) == 191013);
    assert(spec_lunar_days_before_year(1915) == 191387 && spec_solar_days_before_year(1915) == 191378);
    assert(spec_lunar_days_before_year(1916) == 191742 && spec_solar_days_before_year(1916) == 191743);
    assert(spec_lunar_days_before_year(1917) == 192096 && spec_solar_days_before_year(1917) == 192109);
    assert(spec_lunar_days_before_year(1918) == 192480 && spec_solar_days_before_year(1918) == 192474);
    assert(spec_lunar_days_before_year(1919) == 192835 && spec_solar_days_before_year(1919) == 192839);
    assert(spec_lunar_days_before_year(1920) == 193219 && spec_solar_days_before_year(1920) == 193204);
    assert(spec_lunar_days_before_year(1921) == 193573 && spec_solar_days_before_year(1921) == 193570);
    assert(spec_lunar_days_before_year(1922) == 193927 && spec_solar_days_before_year(1922) == 193935);
    assert(spec_lunar_days_before_year(1923) == 194311 && spec_solar_days_before_year(1923) == 194300);
    assert(spec_lunar_days_before_year(1924) == 194665 && spec_solar_days_before_year(1924) == 194665);
    assert(spec_lunar_days_before_year(1925) == 195019 && spec_solar_days_before_year(1925) == 195031);
    assert(spec_lunar_days_before_year(1926) == 195404 && spec_solar_days_before_year(1926) == 195396);
    assert(spec_lunar_days_before_year(1927) == 195758 && spec_solar_days_before_year(1927) == 195761);
    assert(spec_lunar_days_before_year(1928) == 196113 && spec_solar_days_before_year(1928) == 196126);
    assert(spec_lunar_days_before_year(1929) == 196497 && spec_solar_days_before_year(1929) == 196492);
    assert(spec_lunar_days_before_year(1930) == 196851 && spec_solar_days_before_year(1930) == 196857);
    assert(spec_lunar_days_before_year(1931) == 197234 && spec_solar_days_before_year(1931) == 197222);
    assert(spec_lunar_days_before_year(1932) == 197588 && spec_solar_days_before_year(1932) == 197587);
    assert(spec_lunar_days_before_year(1933) == 197943 && spec_solar_days_before_year(1933) == 197953);
    assert(spec_lunar_days_before_year(1934) == 198327 && spec_solar_days_before_year(1934) == 198318);
    assert(spec_lunar_days_before_year(1935) == 198682 && spec_solar_days_before_year(1935) == 198683);
    assert(spec_lunar_days_before_year(1936) == 199036 && spec_solar_days_before_year(1936) == 199048);
    assert(spec_lunar_days_before_year(1937) == 199420 && spec_solar_days_before_year(1937) == 199414);
    assert(spec_lunar_days_before_year(1938) == 199774 && spec_solar_days_before_year(1938) == 199779);
    assert(spec_lunar_days_before_year(1939) == 200158 && spec_solar_days_before_year(1939) == 200144);
    assert(spec_lunar_days_before_year(1940) == 200512 && spec_solar_days_before_year(1940) == 200509);
    assert(spec_lunar_days_before_year(1941) == 200866 && spec_solar_days_before_year(1941) == 200875);
    assert(spec_lunar_days_before_year(1942) == 201250 && spec_solar_days_before_year(1942) == 201240);
    assert(spec_lunar_days_before_year(1943) == 201605 && spec_solar_days_before_year(1943) == 201605);
    assert(spec_lunar_days_before_year(1944) == 201960 && spec_solar_days_before_year(1944) == 201970);
    assert(spec_lunar_days_before_year(1945) == 202344 && spec_solar_days_before_year(1945) == 202336);
    assert(spec_lunar_days_before_year(1946) == 202698 && spec_solar_days_before_year(1946) == 202701);
    assert(spec_lunar_days_before_year(1947) == 203052 && spec_solar_days_before_year(1947) == 203066);
    assert(spec_lunar_days_before_year(1948) == 203436 && spec_solar_days_before_year(1948) == 203431);
    assert(spec_lunar_days_before_year(1949) == 203790 && spec_solar_days_before_year(1949) == 203797);
    assert(spec_lunar_days_before_year(1950) == 204174 && spec_solar_days_before_year(1950) == 204162);
    assert(spec_lunar_days_before_year(1951) == 204528 && spec_solar_days_before_year(1951) == 204527);
}

#[verifier::spinoff_prover]
#[verifier::rlimit(50)]
proof fn lemma_day_totals_1991()
    ensures
        spec_lunar_days_before_year(1991) == 219147,
        spec_solar_days_before_year(1991) == 219137,
{
    lemma_day_totals_1951();
    reveal_with_fuel(spec_lunar_days_before_year, 2);
    reveal_with_fuel(spec_solar_days_before_year, 2);
    assert(spec_lunar_days_before_year(1952) == 204883 && spec_solar_days_before_year(1952) == 204892);
    assert(spec_lunar_days_before_year(1953) == 205267 && spec_solar_days_before_year(1953) == 205258);
    assert(spec_lunar_days_before_year(1954) == 205622 && spec_solar_days_before_year(1954) == 205623);
    assert(spec_lunar_days_before_year(1955) == 205976 && spec_solar_days_before_year(1955) == 205988);
    assert(spec_lunar_days_before_year(1956) == 206360 && spec_solar_days_before_year(1956) == 206353);
    assert(spec_lunar_days_before_year(1957) == 206714 && spec_solar_days_before_year(1957) == 206719);
    assert(spec_lunar_days_before_year(1958) == 207098 && spec_solar_days_before_year(1958) == 207084);
    assert(spec_lunar_days_before_year(1959) == 207452 && spec_solar_days_before_year(1959) == 207449);
    assert(spec_lunar_days_before_year(1960) == 207806 && spec_solar_days_before_year(1960) == 207814);
    assert(spec_lunar_days_before_year(1961) == 208190 && spec_solar_days_before_year(1961) == 208180);
    assert(spec_lunar_days_before_year(1962) == 208545 && spec_solar_days_before_year(1962) == 208545);
    assert(spec_lunar_days_before_year(1963) == 208899 && spec_solar_days_before_year(1963) == 208910);
    assert(spec_lunar_days_before_year(1964) == 209283 && spec_solar_days_before_year(1964) == 209275);
    assert(spec_lunar_days_before_year(1965) == 209638 && spec_solar_days_before_year(1965) == 209641);
    assert(spec_lunar_days_before_year(1966) == 209992 && spec_solar_days_before_year(1966) == 210006);
    assert(spec_lunar_days_before_year(1967) == 210375 && spec_solar_days_before_year(1967) == 210371);
    assert(spec_lunar_days_before_year(1968) == 210730 && spec_solar_days_before_year(1968) == 210736);
    assert(spec_lunar_days_before_year(1969) == 211114 && spec_solar_days_before_year(1969) == 211102);
    assert(spec_lunar_days_before_year(1970) == 211468 && spec_solar_days_before_year(1970) == 211467);
    assert(spec_lunar_days_before_year(1971) == 211823 && spec_solar_days_before_year(1971) == 211832);
    assert(spec_lunar_days_before_year(1972) == 212207 && spec_solar_days_before_year(1972) == 212197);
    assert(spec_lunar_days_before_year(1973) == 212561 && spec_solar_days_before_year(1973) == 212563);
    assert(spec_lunar_days_before_year(1974) == 212915 && spec_solar_days_before_year(1974) == 212928);
    assert(spec_lunar_days_before_year(1975) == 213299 && spec_solar_days_before_year(1975) == 213293);
    assert(spec_lunar_days_before_year(1976) == 213653 && spec_solar_days_before_year(1976) == 213658);
    assert(spec_lunar_days_before_year(1977) == 214037 && spec_solar_days_before_year(1977) == 214024);
    assert(spec_lunar_days_before_year(1978) == 214391 && spec_solar_days_before_year(1978) == 214389);
    assert(spec_lunar_days_before_year(1979) == 214746 && spec_solar_days_before_year(1979) == 214754);
    assert(spec_lunar_days_before_year(1980) == 215130 && spec_solar_days_before_year(1980) == 215119);
    assert(spec_lunar_days_before_year(1981) == 215485 && spec_solar_days_before_year(1981) == 215485);
    assert(spec_lunar_days_before_year(1982) == 215839 && spec_solar_days_before_year(1982) == 215850);
    assert(spec_lunar_days_before_year(1983) == 216223 && spec_solar_days_before_year(1983) == 216215);
    assert(spec_lunar_days_before_year(1984) == 216577 && spec_solar_days_before_year(1984) == 216580);
    assert(spec_lunar_days_before_year(1985) == 216961 && spec_solar_days_before_year(1985) == 216946);
    assert(spec_lunar_days_before_year(1986) == 217315 && spec_solar_days_before_year(1986) == 217311);
    assert(spec_lunar_days_before_year(1987) == 217669 && spec_solar_days_before_year(1987) == 217676);
    assert(spec_lunar_days_before_year(1988) == 218054 && spec_solar_days_before_year(1988) == 218041);
    assert(spec_lunar_days_before_year(1989) == 218408 && spec_solar_days_before_year(1989) == 218407);
    assert(spec_lunar_days_before_year(1990) == 218763 && spec_solar_days_before_year(1990) == 218772);
    assert(spec_lunar_days_before_year(1991) == 219147 && spec_solar_days_before_year(1991) == 219137);
}

#[verifier::spinoff_prover]
#[verifier::rlimit(50)]
proof fn lemma_day_totals_2031()
    ensures
        spec_lunar_days_before_year(2031) == 233734,
        spec_solar_days_before_year(2031) == 233747,
{
    lemma_day_totals_1991();
    reveal_with_fuel(spec_lunar_days_before_year, 2);
    reveal_with_fuel(spec_solar_days_before_year, 2);
    assert(spec_lunar_days_before_year(1992) == 219501 && spec_solar_days_before_year(1992) == 219502);
    assert(spec_lunar_days_before_year(1993) == 219855 && spec_solar_days_before_year(1993) == 219868);
    assert(spec_lunar_days_before_year(1994) == 220238 && spec_solar_days_before_year(1994) == 220233);
    assert(spec_lunar_days_before_year(1995) == 220593 && spec_solar_days_before_year(1995) == 220598);
    assert(spec_lunar_days_before_year(1996) == 220977 && spec_solar_days_before_year(1996) == 220963);
    assert(spec_lunar_days_before_year(1997) == 221332 && spec_solar_days_before_year(1997) == 221329);
    assert(spec_lunar_days_before_year(1998) == 221686 && spec_solar_days_before_year(1998) == 221694);
    assert(spec_lunar_days_before_year(1999) == 222070 && spec_solar_days_before_year(1999) == 222059);
    assert(spec_lunar_days_before_year(2000) == 222424 && spec_solar_days_before_year(2000) == 222424);
    assert(spec_lunar_days_before_year(2001) == 222778 && spec_solar_days_before_year(2001) == 222790);
    assert(spec_lunar_days_before_year(2002) == 223162 && spec_solar_days_before_year(2002) == 223155);
    assert(spec_lunar_days_before_year(2003) == 223516 && spec_solar_days_before_year(2003) == 223520);
    assert(spec_lunar_days_before_year(2004) == 223871 && spec_solar_days_before_year(2004) == 223885);
    assert(spec_lunar_days_before_year(2005) == 224255 && spec_solar_days_before_year(2005) == 224251);
    assert(spec_lunar_days_before_year(2006) == 224609 && spec_solar_days_before_year(2006) == 224616);
    assert(spec_lunar_days_before_year(2007) == 224994 && spec_solar_days_before_year(2007) == 224981);
    assert(spec_lunar_days_before_year(2008) == 225348 && spec_solar_days_before_year(2008) == 225346);
    assert(spec_lunar_days_before_year(2009) == 225702 && spec_solar_days_before_year(2009) == 225712);
    assert(spec_lunar_days_before_year(2010) == 226086 && spec_solar_days_before_year(2010) == 226077);
    assert(spec_lunar_days_before_year(2011) == 226440 && spec_solar_days_before_year(2011) == 226442);
    assert(spec_lunar_days_before_year(2012) == 226794 && spec_solar_days_before_year(2012) == 226807);
    assert(spec_lunar_days_before_year(2013) == 227178 && spec_solar_days_before_year(2013) == 227173);
    assert(spec_lunar_days_before_year(2014) == 227533 && spec_solar_days_before_year(2014) == 227538);
    assert(spec_lunar_days_before_year(2015) == 227917 && spec_solar_days_before_year(2015) == 227903);
    assert(spec_lunar_days_before_year(2016) == 228271 && spec_solar_days_before_year(2016) == 228268);
    assert(spec_lunar_days_before_year(2017) == 228626 && spec_solar_days_before_year(2017) == 228634);
    assert(spec_lunar_days_before_year(2018) == 229010 && spec_solar_days_before_year(2018) == 228999);
    assert(spec_lunar_days_before_year(2019) == 229364 && spec_solar_days_before_year(2019) == 229364);
    assert(spec_lunar_days_before_year(2020) == 229718 && spec_solar_days_before_year(2020) == 229729);
    assert(spec_lunar_days_before_year(2021) == 230102 && spec_solar_days_before_year(2021) == 230095);
    assert(spec_lunar_days_before_year(2022) == 230456 && spec_solar_days_before_year(2022) == 230460);
    assert(spec_lunar_days_before_year(2023) == 230811 && spec_solar_days_before_year(2023) == 230825);
    assert(spec_lunar_days_before_year(2024) == 231195 && spec_solar_days_before_year(2024) == 231190);
    assert(spec_lunar_days_before_year(2025) == 231549 && spec_solar_days_before_year(2025) == 231556);
    assert(spec_lunar_days_before_year(2026) == 231933 && spec_solar_days_before_year(2026) == 231921);
    assert(spec_lunar_days_before_year(2027) == 232288 && spec_solar_days_before_year(2027) == 232286);
    assert(spec_lunar_days_before_year(2028) == 232642 && spec_solar_days_before_year(2028) == 232651);
    assert(spec_lunar_days_before_year(2029) == 233025 && spec_solar_days_before_year(2029) == 233017);
    assert(spec_lunar_days_before_year(2030) == 233380 && spec_solar_days_before_year(2030) == 233382);
    assert(spec_lunar_days_before_year(2031) == 233734 && spec_solar_days_before_year(2031) == 233747);
}

#[verifier::spinoff_prover]
#[verifier::rlimit(50)]
proof fn lemma_day_totals_2051()
    ensures
        spec_lunar_days_before_year(2051) == 241058,
        spec_solar_days_before_year(2051) == 241052,
{
    lemma_day_totals_2031();
    reveal_with_fuel(spec_lunar_days_before_year, 2);
    reveal_with_fuel(spec_solar_days_before_year, 2);
    assert(spec_lunar_days_before_year(2032) == 234118 && spec_solar_days_before_year(2032) == 234112);
    assert(spec_lunar_days_before_year(2033) == 234473 && spec_solar_days_before_year(2033) == 234478);
    assert(spec_lunar_days_before_year(2034) == 234857 && spec_solar_days_before_year(2034) == 234843);
    assert(spec_lunar_days_before_year(2035) == 235211 && spec_solar_days_before_year(2035) == 235208);
    assert(spec_lunar_days_before_year(2036) == 235565 && spec_solar_days_before_year(2036) == 235573);
    assert(spec_lunar_days_before_year(2037) == 235949 && spec_solar_days_before_year(2037) == 235939);
    assert(spec_lunar_days_before_year(2038) == 236303 && spec_solar_days_before_year(2038) == 236304);
    assert(spec_lunar_days_before_year(2039) == 236657 && spec_solar_days_before_year(2039) == 236669);
    assert(spec_lunar_days_before_year(2040) == 237041 && spec_solar_days_before_year(2040) == 237034);
    assert(spec_lunar_days_before_year(2041) == 237396 && spec_solar_days_before_year(2041) == 237400);
    assert(spec_lunar_days_before_year(2042) == 237751 && spec_solar_days_before_year(2042) == 237765);
    assert(spec_lunar_days_before_year(2043) == 238135 && spec_solar_days_before_year(2043) == 238130);
    assert(spec_lunar_days_before_year(2044) == 238489 && spec_solar_days_before_year(2044) == 238495);
    assert(spec_lunar_days_before_year(2045) == 238873 && spec_solar_days_before_year(2045) == 238861);
    assert(spec_lunar_days_before_year(2046) == 239227 && spec_solar_days_before_year(2046) == 239226);
    assert(spec_lunar_days_before_year(2047) == 239581 && spec_solar_days_before_year(2047) == 239591);
    assert(spec_lunar_days_before_year(2048) == 239965 && spec_solar_days_before_year(2048) == 239956);
    assert(spec_lunar_days_before_year(2049) == 240319 && spec_solar_days_before_year(2049) == 240322);
    assert(spec_lunar_days_before_year(2050) == 240674 && spec_solar_days_before_year(2050) == 240687);
    assert(spec_lunar_days_before_year(2051) == 241058 && spec_solar_days_before_year(2051) == 241052);
}

#[verifier::spinoff_prover]
#[verifier::rlimit(50)]
proof fn lemma_span_aligned_1391(year: int)
    requires
        1391 <= year < 1431,
    ensures
        spec_year_aligned(year),
{
    reveal_with_fuel(spec_lunar_days_before_year, 2);
    reveal_with_fuel(spec_solar_days_before_year, 2);
    assert(spec_year_aligned(1391));
    assert(spec_lunar_days_before_year(1392) == 354 && spec_solar_days_before_year(1392) == 365);
    assert(spec_year_aligned(1392));
    assert(spec_lunar_days_before_year(1393) == 738 && spec_solar_days_before_year(1393) == 731);
    assert(spec_year_aligned(1393));
    assert(spec_lunar_days_before_year(1394) == 1092 && spec_solar_days_before_year(1394) == 1096);
    assert(spec_year_aligned(1394));
    assert(spec_lunar_days_before_year(1395) == 1447 && spec_solar_days_before_year(1395) == 1461);
    assert(spec_year_aligned(1395));
    assert(spec_lunar_days_before_year(1396) == 1831 && spec_solar_days_before_year(1396) == 1826);
    assert(spec_year_aligned(1396));
    assert(spec_lunar_days_before_year(1397) == 2185 && spec_solar_days_before_year(1397) == 2192);
    assert(spec_year_aligned(1397));
    assert(spec_lunar_days_before_year(1398) == 2540 && spec_solar_days_before_year(1398) == 2557);
    assert(spec_year_aligned(1398));
    assert(spec_lunar_days_before_year(1399) == 2923 && spec_solar_days_before_year(1399) == 2922);
    assert(spec_year_aligned(1399));
    assert(spec_lunar_days_before_year(1400) == 3277 && spec_solar_days_before_year(1400) == 3287);
    assert(spec_year_aligned(1400));
    assert(spec_lunar_days_before_year(1401) == 3632 && spec_solar_days_before_year(1401) == 3653);
    assert(spec_year_aligned(1401));
    assert(spec_lunar_days_before_year(1402) == 4015 && spec_solar_days_before_year(1402) == 4018);
    assert(spec_year_aligned(1402));
    assert(spec_lunar_days_before_year(1403) == 4370 && spec_solar_days_before_year(1403) == 4383);
    assert(spec_year_aligned(1403));
    assert(spec_lunar_days_before_year(1404) == 4754 && spec_solar_days_before_year(1404) == 4748);
    assert(spec_year_aligned(1404));
    assert(spec_lunar_days_before_year(1405) == 5109 && spec_solar_days_before_year(1405) == 5114);
    assert(spec_year_aligned(1405));
    assert(spec_lunar_days_before_year(1406) == 5463 && spec_solar_days_before_year(1406) == 5479);
    assert(spec_year_aligned(1406));
    assert(spec_lunar_days_before_year(1407) == 5847 && spec_solar_days_before_year(1407) == 5844);
    assert(spec_year_aligned(1407));
    assert(spec_lunar_days_before_year(1408) == 6201 && spec_solar_days_before_year(1408) == 6209);
    assert(spec_year_aligned(1408));
    assert(spec_lunar_days_before_year(1409) == 6555 && spec_solar_days_before_year(1409) == 6575);
    assert(spec_year_aligned(1409));
    assert(spec_lunar_days_before_year(1410) == 6939 && spec_solar_days_before_year(1410) == 6940);
    assert(spec_year_aligned(1410));
    assert(spec_lunar_days_before_year(1411) == 7293 && spec_solar_days_before_year(1411) == 7305);
    assert(spec_year_aligned(1411));
    assert(spec_lunar_days_before_year(1412) == 7677 && spec_solar_days_before_year(1412) == 7670);
    assert(spec_year_aligned(1412));
    assert(spec_lunar_days_before_year(1413) == 8032 && spec_solar_days_before_year(1413) == 8036);
    assert(spec_year_aligned(1413));
    assert(spec_lunar_days_before_year(1414) == 8387 && spec_solar_days_before_year(1414) == 8401);
    assert(spec_year_aligned(1414));
    assert(spec_lunar_days_before_year(1415) == 8771 && spec_solar_days_before_year(1415) == 8766);
    assert(spec_year_aligned(1415));
    assert(spec_lunar_days_before_year(1416) == 9125 && spec_solar_days_before_year(1416) == 9131);
    assert(spec_year_aligned(1416));
    assert(spec_lunar_days_before_year(1417) == 9479 && spec_solar_days_before_year(1417) == 9497);
    assert(spec_year_aligned(1417));
    assert(spec_lunar_days_before_year(1418) == 9863 && spec_solar_days_before_year(1418) == 9862);
    assert(spec_year_aligned(1418));
    assert(spec_lunar_days_before_year(1419) == 10217 && spec_solar_days_before_year(1419) == 10227);
    assert(spec_year_aligned(1419));
    assert(spec_lunar_days_before_year(1420) == 10571 && spec_solar_days_before_year(1420) == 10592);
    assert(spec_year_aligned(1420));
    assert(spec_lunar_days_before_year(1421) == 10955 && spec_solar_days_before_year(1421) == 10958);
    assert(spec_year_aligned(1421));
    assert(spec_lunar_days_before_year(1422) == 11310 && spec_solar_days_before_year(1422) == 11323);
    assert(spec_year_aligned(1422));
    assert(spec_lunar_days_before_year(1423) == 11694 && spec_solar_days_before_year(1423) == 11688);
    assert(spec_year_aligned(1423));
    assert(spec_lunar_days_before_year(1424) == 12049 && spec_solar_days_before_year(1424) == 12053);
    assert(spec_year_aligned(1424));
    assert(spec_lunar_days_before_year(1425) == 12403 && spec_solar_days_before_year(1425) == 12419);
    assert(spec_year_aligned(1425));
    assert(spec_lunar_days_before_year(1426) == 12787 && spec_solar_days_before_year(1426) == 12784);
    assert(spec_year_aligned(1426));
    assert(spec_lunar_days_before_year(1427) == 13141 && spec_solar_days_before_year(1427) == 13149);
    assert(spec_year_aligned(1427));
    assert(spec_lunar_days_before_year(1428) == 13495 && spec_solar_days_before_year(1428) == 13514);
    assert(spec_year_aligned(1428));
    assert(spec_lunar_days_before_year(1429) == 13879 && spec_solar_days_before_year(1429) == 13880);
    assert(spec_year_aligned(1429));
    assert(spec_lunar_days_before_year(1430) == 14233 && spec_solar_days_before_year(1430) == 14245);
    assert(spec_year_aligned(1430));
    if year == 1391 {
    } else if year == 1392 {
    } else if year == 1393 {
    } else if year == 1394 {
    } else if year == 1395 {
    } else if year == 1396 {
    } else if year == 1397 {
    } else if year == 1398 {
    } else if year == 1399 {
    } else if year == 1400 {
    } else if year == 1401 {
    } else if year == 1402 {
    } else if year == 1403 {
    } else if year == 1404 {
    } else if year == 1405 {
    } else if year == 1406 {
    } else if year == 1407 {
    } else if year == 1408 {
    } else if year == 1409 {
    } else if year == 1410 {
    } else if year == 1411 {
    } else if year == 1412 {
    } else if year == 1413 {
    } else if year == 1414 {
    } else if year == 1415 {
    } else if year == 1416 {
    } else if year == 1417 {
    } else if year == 1418 {
    } else if year == 1419 {
    } else if year == 1420 {
    } else if year == 1421 {
    } else if year == 1422 {
    } else if year == 1423 {
    } else if year == 1424 {
    } else if year == 1425 {
    } else if year == 1426 {
    } else if year == 1427 {
    } else if year == 1428 {
    } else if year == 1429 {
    } else if year == 1430 {
    }
}

#[verifier::spinoff_prover]
#[verifier::rlimit(50)]
proof fn lemma_span_aligned_1431(year: int)
    requires
        1431 <= year < 1471,
    ensures
        spec_year_aligned(year),
{
    lemma_day_totals_1431();
    reveal_with_fuel(spec_lunar_days_before_year, 2);
    reveal_with_fuel(spec_solar_days_before_year, 2);
    assert(spec_year_aligned(1431));
    assert(spec_lunar_days_before_year(1432) == 14972 && spec_solar_days_before_year(1432) == 14975);
    assert(spec_year_aligned(1432));
    assert(spec_lunar_days_before_year(1433) == 15326 && spec_solar_days_before_year(1433) == 15341);
    assert(spec_year_aligned(1433));
    assert(spec_lunar_days_before_year(1434) == 15710 && spec_solar_days_before_year(1434) == 15706);
    assert(spec_year_aligned(1434));
    assert(spec_lunar_days_before_year(1435) == 16064 && spec_solar_days_before_year(1435) == 16071);
    assert(spec_year_aligned(1435));
    assert(spec_lunar_days_before_year(1436) == 16418 && spec_solar_days_before_year(1436) == 16436);
    assert(spec_year_aligned(1436));
    assert(spec_lunar_days_before_year(1437) == 16802 && spec_solar_days_before_year(1437) == 16802);
    assert(spec_year_aligned(1437));
    assert(spec_lunar_days_before_year(1438) == 17157 && spec_solar_days_before_year(1438) == 17167);
    assert(spec_year_aligned(1438));
    assert(spec_lunar_days_before_year(1439) == 17511 && spec_solar_days_before_year(1439) == 17532);
    assert(spec_year_aligned(1439));
    assert(spec_lunar_days_before_year(1440) == 17895 && spec_solar_days_before_year(1440) == 17897);
    assert(spec_year_aligned(1440));
    assert(spec_lunar_days_before_year(1441) == 18250 && spec_solar_days_before_year(1441) == 18263);
    assert(spec_year_aligned(1441));
    assert(spec_lunar_days_before_year(1442) == 18634 && spec_solar_days_before_year(1442) == 18628);
    assert(spec_year_aligned(1442));
    assert(spec_lunar_days_before_year(1443) == 18988 && spec_solar_days_before_year(1443) == 18993);
    assert(spec_year_aligned(1443));
    assert(spec_lunar_days_before_year(1444) == 19342 && spec_solar_days_before_year(1444) == 19358);
    assert(spec_year_aligned(1444));
    assert(spec_lunar_days_before_year(1445) == 19726 && spec_solar_days_before_year(1445) == 19724);
    assert(spec_year_aligned(1445));
    assert(spec_lunar_days_before_year(1446) == 20080 && spec_solar_days_before_year(1446) == 20089);
    assert(spec_year_aligned(1446));
    assert(spec_lunar_days_before_year(1447) == 20435 && spec_solar_days_before_year(1447) == 20454);
    assert(spec_year_aligned(1447));
    assert(spec_lunar_days_before_year(1448) == 20819 && spec_solar_days_before_year(1448) == 20819);
    assert(spec_year_aligned(1448));
    assert(spec_lunar_days_before_year(1449) == 21173 && spec_solar_days_before_year(1449) == 21185);
    assert(spec_year_aligned(1449));
    assert(spec_lunar_days_before_year(1450) == 21528 && spec_solar_days_before_year(1450) == 21550);
    assert(spec_year_aligned(1450));
    assert(spec_lunar_days_before_year(1451) == 21912 && spec_solar_days_before_year(1451) == 21915);
    assert(spec_year_aligned(1451));
    assert(spec_lunar_days_before_year(1452) == 22266 && spec_solar_days_before_year(1452) == 22280);
    assert(spec_year_aligned(1452));
    assert(spec_lunar_days_before_year(1453) == 22650 && spec_solar_days_before_year(1453) == 22646);
    assert(spec_year_aligned(1453));
    assert(spec_lunar_days_before_year(1454) == 23004 && spec_solar_days_before_year(1454) == 23011);
    assert(spec_year_aligned(1454));
    assert(spec_lunar_days_before_year(1455) == 23358 && spec_solar_days_before_year(1455) == 23376);
    assert(spec_year_aligned(1455));
    assert(spec_lunar_days_before_year(1456) == 23742 && spec_solar_days_before_year(1456) == 23741);
    assert(spec_year_aligned(1456));
    assert(spec_lunar_days_before_year(1457) == 24097 && spec_solar_days_before_year(1457) == 24107);
    assert(spec_year_aligned(1457));
    assert(spec_lunar_days_before_year(1458) == 24451 && spec_solar_days_before_year(1458) == 24472);
    assert(spec_year_aligned(1458));
    assert(spec_lunar_days_before_year(1459) == 24835 && spec_solar_days_before_year(1459) == 24837);
    assert(spec_year_aligned(1459));
    assert(spec_lunar_days_before_year(1460) == 25190 && spec_solar_days_before_year(1460) == 25202);
    assert(spec_year_aligned(1460));
    assert(spec_lunar_days_before_year(1461) == 25573 && spec_solar_days_before_year(1461) == 25568);
    assert(spec_year_aligned(1461));
    assert(spec_lunar_days_before_year(1462) == 25927 && spec_solar_days_before_year(1462) == 25933);
    assert(spec_year_aligned(1462));
    assert(spec_lunar_days_before_year(1463) == 26282 && spec_solar_days_before_year(1463) == 26298);
    assert(spec_year_aligned(1463));
    assert(spec_lunar_days_before_year(1464) == 26665 && spec_solar_days_before_year(1464) == 26663);
    assert(spec_year_aligned(1464));
    assert(spec_lunar_days_before_year(1465) == 27020 && spec_solar_days_before_year(1465) == 27029);
    assert(spec_year_aligned(1465));
    assert(spec_lunar_days_before_year(1466) == 27375 && spec_solar_days_before_year(1466) == 27394);
    assert(spec_year_aligned(1466));
    assert(spec_lunar_days_before_year(1467) == 27759 && spec_solar_days_before_year(1467) == 27759);
    assert(spec_year_aligned(1467));
    assert(spec_lunar_days_before_year(1468) == 28113 && spec_solar_days_before_year(1468) == 28124);
    assert(spec_year_aligned(1468));
    assert(spec_lunar_days_before_year(1469) == 28467 && spec_solar_days_before_year(1469) == 28490);
    assert(spec_year_aligned(1469));
    assert(spec_lunar_days_before_year(1470) == 28851 && spec_solar_days_before_year(1470) == 28855);
    assert(spec_year_aligned(1470));
    if year == 1431 {
    } else if year == 1432 {
    } else if year == 1433 {
    } else if year == 1434 {
    } else if year == 1435 {
    } else if year == 1436 {
    } else if year == 1437 {
    } else if year == 1438 {
    } else if year == 1439 {
    } else if year == 1440 {
    } else if year == 1441 {
    } else if year == 1442 {
    } else if year == 1443 {
    } else if year == 1444 {
    } else if year == 1445 {
    } else if year == 1446 {
    } else if year == 1447 {
    } else if year == 1448 {
    } else if year == 1449 {
    } else if year == 1450 {
    } else if year == 1451 {
    } else if year == 1452 {
    } else if year == 1453 {
    } else if year == 1454 {
    } else if year == 1455 {
    } else if year == 1456 {
    } else if year == 1457 {
    } else if year == 1458 {
    } else if year == 1459 {
    } else if year == 1460 {
    } else if year == 1461 {
    } else if year == 1462 {
    } else if year == 1463 {
    } else if year == 1464 {
    } else if year == 1465 {
    } else if year == 1466 {
    } else if year == 1467 {
    } else if year == 1468 {
    } else if year == 1469 {
    } else if year == 1470 {
    }
}

#[verifier::spinoff_prover]
#[verifier::rlimit(50)]
proof fn lemma_span_aligned_1471(year: int)
    requires
        1471 <= year < 1511,
    ensures
        spec_year_aligned(year),
{
    lemma_day_totals_1471();
    reveal_with_fuel(spec_lunar_days_before_year, 2);
    reveal_with_fuel(spec_solar_days_before_year, 2);
    assert(spec_year_aligned(1471));
    assert(spec_lunar_days_before_year(1472) == 29589 && spec_solar_days_before_year(1472) == 29585);
    assert(spec_year_aligned(1472));
    assert(spec_lunar_days_before_year(1473) == 29943 && spec_solar_days_before_year(1473) == 29951);
    assert(spec_year_aligned(1473));
    assert(spec_lunar_days_before_year(1474) == 30298 && spec_solar_days_before_year(1474) == 30316);
    assert(spec_year_aligned(1474));
    assert(spec_lunar_days_before_year(1475) == 30682 && spec_solar_days_before_year(1475) == 30681);
    assert(spec_year_aligned(1475));
    assert(spec_lunar_days_before_year(1476) == 31037 && spec_solar_days_before_year(1476) == 31046);
    assert(spec_year_aligned(1476));
    assert(spec_lunar_days_before_year(1477) == 31391 && spec_solar_days_before_year(1477) == 31412);
    assert(spec_year_aligned(1477));
    assert(spec_lunar_days_before_year(1478) == 31775 && spec_solar_days_before_year(1478) == 31777);
    assert(spec_year_aligned(1478));
    assert(spec_lunar_days_before_year(1479) == 32129 && spec_solar_days_before_year(1479) == 32142);
    assert(spec_year_aligned(1479));
    assert(spec_lunar_days_before_year(1480) == 32513 && spec_solar_days_before_year(1480) == 32507);
    assert(spec_year_aligned(1480));
    assert(spec_lunar_days_before_year(1481) == 32867 && spec_solar_days_before_year(1481) == 32873);
    assert(spec_year_aligned(1481));
    assert(spec_lunar_days_before_year(1482) == 33221 && spec_solar_days_before_year(1482) == 33238);
    assert(spec_year_aligned(1482));
    assert(spec_lunar_days_before_year(1483) == 33605 && spec_solar_days_before_year(1483) == 33603);
    assert(spec_year_aligned(1483));
    assert(spec_lunar_days_before_year(1484) == 33960 && spec_solar_days_before_year(1484) == 33968);
    assert(spec_year_aligned(1484));
    assert(spec_lunar_days_before_year(1485) == 34315 && spec_solar_days_before_year(1485) == 34334);
    assert(spec_year_aligned(1485));
    assert(spec_lunar_days_before_year(1486) == 34699 && spec_solar_days_before_year(1486) == 34699);
    assert(spec_year_aligned(1486));
    assert(spec_lunar_days_before_year(1487) == 35053 && spec_solar_days_before_year(1487) == 35064);
    assert(spec_year_aligned(1487));
    assert(spec_lunar_days_before_year(1488) == 35407 && spec_solar_days_before_year(1488) == 35429);
    assert(spec_year_aligned(1488));
    assert(spec_lunar_days_before_year(1489) == 35791 && spec_solar_days_before_year(1489) == 35795);
    assert(spec_year_aligned(1489));
    assert(spec_lunar_days_before_year(1490) == 36145 && spec_solar_days_before_year(1490) == 36160);
    assert(spec_year_aligned(1490));
    assert(spec_lunar_days_before_year(1491) == 36529 && spec_solar_days_before_year(1491) == 36525);
    assert(spec_year_aligned(1491));
    assert(spec_lunar_days_before_year(1492) == 36883 && spec_solar_days_before_year(1492) == 36890);
    assert(spec_year_aligned(1492));
    assert(spec_lunar_days_before_year(1493) == 37238 && spec_solar_days_before_year(1493) == 37256);
    assert(spec_year_aligned(1493));
    assert(spec_lunar_days_before_year(1494) == 37622 && spec_solar_days_before_year(1494) == 37621);
    assert(spec_year_aligned(1494));
    assert(spec_lunar_days_before_year(1495) == 37976 && spec_solar_days_before_year(1495) == 37986);
    assert(spec_year_aligned(1495));
    assert(spec_lunar_days_before_year(1496) == 38331 && spec_solar_days_before_year(1496) == 38351);
    assert(spec_year_aligned(1496));
    assert(spec_lunar_days_before_year(1497) == 38714 && spec_solar_days_before_year(1497) == 38717);
    assert(spec_year_aligned(1497));
    assert(spec_lunar_days_before_year(1498) == 39068 && spec_solar_days_before_year(1498) == 39082);
    assert(spec_year_aligned(1498));
    assert(spec_lunar_days_before_year(1499) == 39452 && spec_solar_days_before_year(1499) == 39447);
    assert(spec_year_aligned(1499));
    assert(spec_lunar_days_before_year(1500) == 39807 && spec_solar_days_before_year(1500) == 39812);
    assert(spec_year_aligned(1500));
    assert(spec_lunar_days_before_year(1501) == 40161 && spec_solar_days_before_year(1501) == 40178);
    assert(spec_year_aligned(1501));
    assert(spec_lunar_days_before_year(1502) == 40545 && spec_solar_days_before_year(1502) == 40543);
    assert(spec_year_aligned(1502));
    assert(spec_lunar_days_before_year(1503) == 40900 && spec_solar_days_before_year(1503) == 40908);
    assert(spec_year_aligned(1503));
    assert(spec_lunar_days_before_year(1504) == 41254 && spec_solar_days_before_year(1504) == 41273);
    assert(spec_year_aligned(1504));
    assert(spec_lunar_days_before_year(1505) == 41638 && spec_solar_days_before_year(1505) == 41639);
    assert(spec_year_aligned(1505));
    assert(spec_lunar_days_before_year(1506) == 41992 && spec_solar_days_before_year(1506) == 42004);
    assert(spec_year_aligned(1506));
    assert(spec_lunar_days_before_year(1507) == 42346 && spec_solar_days_before_year(1507) == 42369);
    assert(spec_year_aligned(1507));
    assert(spec_lunar_days_before_year(1508) == 42730 && spec_solar_days_before_year(1508) == 42734);
    assert(spec_year_aligned(1508));
    assert(spec_lunar_days_before_year(1509) == 43085 && spec_solar_days_before_year(1509) == 43100);
    assert(spec_year_aligned(1509));
    assert(spec_lunar_days_before_year(1510) == 43469 && spec_solar_days_before_year(1510) == 43465);
    assert(spec_year_aligned(1510));
    if year == 1471 {
    } else if year == 1472 {
    } else if year == 1473 {
    } else if year == 1474 {
    } else if year == 1475 {
    } else if year == 1476 {
    } else if year == 1477 {
    } else if year == 1478 {
    } else if year == 1479 {
    } else if year == 1480 {
    } else if year == 1481 {
    } else if year == 1482 {
    } else if year == 1483 {
    } else if year == 1484 {
    } else if year == 1485 {
    } else if year == 1486 {
    } else if year == 1487 {
    } else if year == 1488 {
    } else if year == 1489 {
    } else if year == 1490 {
    } else if year == 1491 {
    } else if year == 1492 {
    } else if year == 1493 {
    } else if year == 1494 {
    } else if year == 1495 {
    } else if year == 1496 {
    } else if year == 1497 {
    } else if year == 1498 {
    } else if year == 1499 {
    } else if year == 1500 {
    } else if year == 1501 {
    } else if year == 1502 {
    } else if year == 1503 {
    } else if year == 1504 {
    } else if year == 1505 {
    } else if year == 1506 {
    } else if year == 1507 {
    } else if year == 1508 {
    } else if year == 1509 {
    } else if year == 1510 {
    }
}

#[verifier::spinoff_prover]
#[verifier::rlimit(50)]
proof fn lemma_span_aligned_1511(year: int)
    requires
        1511 <= year < 1551,
    ensures
        spec_year_aligned(year),
{
    lemma_day_totals_1511();
    reveal_with_fuel(spec_lunar_days_before_year, 2);
    reveal_with_fuel(spec_solar_days_before_year, 2);
    assert(spec_year_aligned(1511));
    assert(spec_lunar_days_before_year(1512) == 44178 && spec_solar_days_before_year(1512) == 44195);
    assert(spec_year_aligned(1512));
    assert(spec_lunar_days_before_year(1513) == 44562 && spec_solar_days_before_year(1513) == 44561);
    assert(spec_year_aligned(1513));
    assert(spec_lunar_days_before_year(1514) == 44916 && spec_solar_days_before_year(1514) == 44926);
    assert(spec_year_aligned(1514));
    assert(spec_lunar_days_before_year(1515) == 45270 && spec_solar_days_before_year(1515) == 45291);
    assert(spec_year_aligned(1515));
    assert(spec_lunar_days_before_year(1516) == 45654 && spec_solar_days_before_year(1516) == 45656);
    assert(spec_year_aligned(1516));
    assert(spec_lunar_days_before_year(1517) == 46008 && spec_solar_days_before_year(1517) == 46022);
    assert(spec_year_aligned(1517));
    assert(spec_lunar_days_before_year(1518) == 46392 && spec_solar_days_before_year(1518) == 46387);
    assert(spec_year_aligned(1518));
    assert(spec_lunar_days_before_year(1519) == 46747 && spec_solar_days_before_year(1519) == 46752);
    assert(spec_year_aligned(1519));
    assert(spec_lunar_days_before_year(1520) == 47101 && spec_solar_days_before_year(1520) == 47117);
    assert(spec_year_aligned(1520));
    assert(spec_lunar_days_before_year(1521) == 47485 && spec_solar_days_before_year(1521) == 47483);
    assert(spec_year_aligned(1521));
    assert(spec_lunar_days_before_year(1522) == 47840 && spec_solar_days_before_year(1522) == 47848);
    assert(spec_year_aligned(1522));
    assert(spec_lunar_days_before_year(1523) == 48194 && spec_solar_days_before_year(1523) == 48213);
    assert(spec_year_aligned(1523));
    assert(spec_lunar_days_before_year(1524) == 48577 && spec_solar_days_before_year(1524) == 48578);
    assert(spec_year_aligned(1524));
    assert(spec_lunar_days_before_year(1525) == 48931 && spec_solar_days_before_year(1525) == 48944);
    assert(spec_year_aligned(1525));
    assert(spec_lunar_days_before_year(1526) == 49315 && spec_solar_days_before_year(1526) == 49309);
    assert(spec_year_aligned(1526));
    assert(spec_lunar_days_before_year(1527) == 49670 && spec_solar_days_before_year(1527) == 49674);
    assert(spec_year_aligned(1527));
    assert(spec_lunar_days_before_year(1528) == 50025 && spec_solar_days_before_year(1528) == 50039);
    assert(spec_year_aligned(1528));
    assert(spec_lunar_days_before_year(1529) == 50409 && spec_solar_days_before_year(1529) == 50405);
    assert(spec_year_aligned(1529));
    assert(spec_lunar_days_before_year(1530) == 50763 && spec_solar_days_before_year(1530) == 50770);
    assert(spec_year_aligned(1530));
    assert(spec_lunar_days_before_year(1531) == 51117 && spec_solar_days_before_year(1531) == 51135);
    assert(spec_year_aligned(1531));
    assert(spec_lunar_days_before_year(1532) == 51501 && spec_solar_days_before_year(1532) == 51500);
    assert(spec_year_aligned(1532));
    assert(spec_lunar_days_before_year(1533) == 51855 && spec_solar_days_before_year(1533) == 51866);
    assert(spec_year_aligned(1533));
    assert(spec_lunar_days_before_year(1534) == 52209 && spec_solar_days_before_year(1534) == 52231);
    assert(spec_year_aligned(1534));
    assert(spec_lunar_days_before_year(1535) == 52593 && spec_solar_days_before_year(1535) == 52596);
    assert(spec_year_aligned(1535));
    assert(spec_lunar_days_before_year(1536) == 52948 && spec_solar_days_before_year(1536) == 52961);
    assert(spec_year_aligned(1536));
    assert(spec_lunar_days_before_year(1537) == 53332 && spec_solar_days_before_year(1537) == 53327);
    assert(spec_year_aligned(1537));
    assert(spec_lunar_days_before_year(1538) == 53687 && spec_solar_days_before_year(1538) == 53692);
    assert(spec_year_aligned(1538));
    assert(spec_lunar_days_before_year(1539) == 54041 && spec_solar_days_before_year(1539) == 54057);
    assert(spec_year_aligned(1539));
    assert(spec_lunar_days_before_year(1540) == 54425 && spec_solar_days_before_year(1540) == 54422);
    assert(spec_year_aligned(1540));
    assert(spec_lunar_days_before_year(1541) == 54779 && spec_solar_days_before_year(1541) == 54788);
    assert(spec_year_aligned(1541));
    assert(spec_lunar_days_before_year(1542) == 55133 && spec_solar_days_before_year(1542) == 55153);
    assert(spec_year_aligned(1542));
    assert(spec_lunar_days_before_year(1543) == 55517 && spec_solar_days_before_year(1543) == 55518);
    assert(spec_year_aligned(1543));
    assert(spec_lunar_days_before_year(1544) == 55871 && spec_solar_days_before_year(1544) == 55883);
    assert(spec_year_aligned(1544));
    assert(spec_lunar_days_before_year(1545) == 56226 && spec_solar_days_before_year(1545) == 56249);
    assert(spec_year_aligned(1545));
    assert(spec_lunar_days_before_year(1546) == 56610 && spec_solar_days_before_year(1546) == 56614);
    assert(spec_year_aligned(1546));
    assert(spec_lunar_days_before_year(1547) == 56965 && spec_solar_days_before_year(1547) == 56979);
    assert(spec_year_aligned(1547));
    assert(spec_lunar_days_before_year(1548) == 57349 && spec_solar_days_before_year(1548) == 57344);
    assert(spec_year_aligned(1548));
    assert(spec_lunar_days_before_year(1549) == 57703 && spec_solar_days_before_year(1549) == 57710);
    assert(spec_year_aligned(1549));
    assert(spec_lunar_days_before_year(1550) == 58057 && spec_solar_days_before_year(1550) == 58075);
    assert(spec_year_aligned(1550));
    if year == 1511 {
    } else if year == 1512 {
    } else if year == 1513 {
    } else if year == 1514 {
    } else if year == 1515 {
    } else if year == 1516 {
    } else if year == 1517 {
    } else if year == 1518 {
    } else if year == 1519 {
    } else if year == 1520 {
    } else if year == 1521 {
    } else if year == 1522 {
    } else if year == 1523 {
    } else if year == 1524 {
    } else if year == 1525 {
    } else if year == 1526 {
    } else if year == 1527 {
    } else if year == 1528 {
    } else if year == 1529 {
    } else if year == 1530 {
    } else if year == 1531 {
    } else if year == 1532 {
    } else if year == 1533 {
    } else if year == 1534 {
    } else if year == 1535 {
    } else if year == 1536 {
    } else if year == 1537 {
    } else if year == 1538 {
    } else if year == 1539 {
    } else if year == 1540 {
    } else if year == 1541 {
    } else if year == 1542 {
    } else if year == 1543 {
    } else if year == 1544 {
    } else if year == 1545 {
    } else if year == 1546 {
    } else if year == 1547 {
    } else if year == 1548 {
    } else if year == 1549 {
    } else if year == 1550 {
    }
}

#[verifier::spinoff_prover]
#[verifier::rlimit(50)]
proof fn lemma_span_aligned_1551(year: int)
    requires
        1551 <= year < 1591,
    ensures
        spec_year_aligned(year),
{
    lemma_day_totals_1551();
    reveal_with_fuel(spec_lunar_days_before_year, 2);
    reveal_with_fuel(spec_solar_days_before_year, 2);
    assert(spec_year_aligned(1551));
    assert(spec_lunar_days_before_year(1552) == 58795 && spec_solar_days_before_year(1552) == 58805);
    assert(spec_year_aligned(1552));
    assert(spec_lunar_days_before_year(1553) == 59149 && spec_solar_days_before_year(1553) == 59171);
    assert(spec_year_aligned(1553));
    assert(spec_lunar_days_before_year(1554) == 59533 && spec_solar_days_before_year(1554) == 59536);
    assert(spec_year_aligned(1554));
    assert(spec_lunar_days_before_year(1555) == 59888 && spec_solar_days_before_year(1555) == 59901);
    assert(spec_year_aligned(1555));
    assert(spec_lunar_days_before_year(1556) == 60272 && spec_solar_days_before_year(1556) == 60266);
    assert(spec_year_aligned(1556));
    assert(spec_lunar_days_before_year(1557) == 60626 && spec_solar_days_before_year(1557) == 60632);
    assert(spec_year_aligned(1557));
    assert(spec_lunar_days_before_year(1558) == 60981 && spec_solar_days_before_year(1558) == 60997);
    assert(spec_year_aligned(1558));
    assert(spec_lunar_days_before_year(1559) == 61364 && spec_solar_days_before_year(1559) == 61362);
    assert(spec_year_aligned(1559));
    assert(spec_lunar_days_before_year(1560) == 61718 && spec_solar_days_before_year(1560) == 61727);
    assert(spec_year_aligned(1560));
    assert(spec_lunar_days_before_year(1561) == 62073 && spec_solar_days_before_year(1561) == 62093);
    assert(spec_year_aligned(1561));
    assert(spec_lunar_days_before_year(1562) == 62457 && spec_solar_days_before_year(1562) == 62458);
    assert(spec_year_aligned(1562));
    assert(spec_lunar_days_before_year(1563) == 62811 && spec_solar_days_before_year(1563) == 62823);
    assert(spec_year_aligned(1563));
    assert(spec_lunar_days_before_year(1564) == 63166 && spec_solar_days_before_year(1564) == 63188);
    assert(spec_year_aligned(1564));
    assert(spec_lunar_days_before_year(1565) == 63550 && spec_solar_days_before_year(1565) == 63554);
    assert(spec_year_aligned(1565));
    assert(spec_lunar_days_before_year(1566) == 63904 && spec_solar_days_before_year(1566) == 63919);
    assert(spec_year_aligned(1566));
    assert(spec_lunar_days_before_year(1567) == 64288 && spec_solar_days_before_year(1567) == 64284);
    assert(spec_year_aligned(1567));
    assert(spec_lunar_days_before_year(1568) == 64642 && spec_solar_days_before_year(1568) == 64649);
    assert(spec_year_aligned(1568));
    assert(spec_lunar_days_before_year(1569) == 64996 && spec_solar_days_before_year(1569) == 65015);
    assert(spec_year_aligned(1569));
    assert(spec_lunar_days_before_year(1570) == 65380 && spec_solar_days_before_year(1570) == 65380);
    assert(spec_year_aligned(1570));
    assert(spec_lunar_days_before_year(1571) == 65735 && spec_solar_days_before_year(1571) == 65745);
    assert(spec_year_aligned(1571));
    assert(spec_lunar_days_before_year(1572) == 66089 && spec_solar_days_before_year(1572) == 66110);
    assert(spec_year_aligned(1572));
    assert(spec_lunar_days_before_year(1573) == 66473 && spec_solar_days_before_year(1573) == 66476);
    assert(spec_year_aligned(1573));
    assert(spec_lunar_days_before_year(1574) == 66828 && spec_solar_days_before_year(1574) == 66841);
    assert(spec_year_aligned(1574));
    assert(spec_lunar_days_before_year(1575) == 67212 && spec_solar_days_before_year(1575) == 67206);
    assert(spec_year_aligned(1575));
    assert(spec_lunar_days_before_year(1576) == 67566 && spec_solar_days_before_year(1576) == 67571);
    assert(spec_year_aligned(1576));
    assert(spec_lunar_days_before_year(1577) == 67920 && spec_solar_days_before_year(1577) == 67937);
    assert(spec_year_aligned(1577));
    assert(spec_lunar_days_before_year(1578) == 68304 && spec_solar_days_before_year(1578) == 68302);
    assert(spec_year_aligned(1578));
    assert(spec_lunar_days_before_year(1579) == 68658 && spec_solar_days_before_year(1579) == 68667);
    assert(spec_year_aligned(1579));
    assert(spec_lunar_days_before_year(1580) == 69012 && spec_solar_days_before_year(1580) == 69032);
    assert(spec_year_aligned(1580));
    assert(spec_lunar_days_before_year(1581) == 69397 && spec_solar_days_before_year(1581) == 69398);
    assert(spec_year_aligned(1581));
    assert(spec_lunar_days_before_year(1582) == 69751 && spec_solar_days_before_year(1582) == 69763);
    assert(spec_year_aligned(1582));
    assert(spec_lunar_days_before_year(1583) == 70106 && spec_solar_days_before_year(1583) == 70118);
    assert(spec_year_aligned(1583));
    assert(spec_lunar_days_before_year(1584) == 70490 && spec_solar_days_before_year(1584) == 70483);
    assert(spec_year_aligned(1584));
    assert(spec_lunar_days_before_year(1585) == 70844 && spec_solar_days_before_year(1585) == 70849);
    assert(spec_year_aligned(1585));
    assert(spec_lunar_days_before_year(1586) == 71227 && spec_solar_days_before_year(1586) == 71214);
    assert(spec_year_aligned(1586));
    assert(spec_lunar_days_before_year(1587) == 71581 && spec_solar_days_before_year(1587) == 71579);
    assert(spec_year_aligned(1587));
    assert(spec_lunar_days_before_year(1588) == 71936 && spec_solar_days_before_year(1588) == 71944);
    assert(spec_year_aligned(1588));
    assert(spec_lunar_days_before_year(1589) == 72320 && spec_solar_days_before_year(1589) == 72310);
    assert(spec_year_aligned(1589));
    assert(spec_lunar_days_before_year(1590) == 72675 && spec_solar_days_before_year(1590) == 72675);
    assert(spec_year_aligned(1590));
    if year == 1551 {
    } else if year == 1552 {
    } else if year == 1553 {
    } else if year == 1554 {
    } else if year == 1555 {
    } else if year == 1556 {
    } else if year == 1557 {
    } else if year == 1558 {
    } else if year == 1559 {
    } else if year == 1560 {
    } else if year == 1561 {
    } else if year == 1562 {
    } else if year == 1563 {
    } else if year == 1564 {
    } else if year == 1565 {
    } else if year == 1566 {
    } else if year == 1567 {
    } else if year == 1568 {
    } else if year == 1569 {
    } else if year == 1570 {
    } else if year == 1571 {
    } else if year == 1572 {
    } else if year == 1573 {
    } else if year == 1574 {
    } else if year == 1575 {
    } else if year == 1576 {
    } else if year == 1577 {
    } else if year == 1578 {
    } else if year == 1579 {
    } else if year == 1580 {
    } else if year == 1581 {
    } else if year == 1582 {
    } else if year == 1583 {
    } else if year == 1584 {
    } else if year == 1585 {
    } else if year == 1586 {
    } else if year == 1587 {
    } else if year == 1588 {
    } else if year == 1589 {
    } else if year == 1590 {
    }
}

#[verifier::spinoff_prover]
#[verifier::rlimit(50)]
proof fn lemma_span_aligned_1591(year: int)
    requires
        1591 <= year < 1631,
    ensures
        spec_year_aligned(year),
{
    lemma_day_totals_1591();
    reveal_with_fuel(spec_lunar_days_before_year, 2);
    reveal_with_fuel(spec_solar_days_before_year, 2);
    assert(spec_year_aligned(1591));
    assert(spec_lunar_days_before_year(1592) == 73413 && spec_solar_days_before_year(1592) == 73405);
    assert(spec_year_aligned(1592));
    assert(spec_lunar_days_before_year(1593) == 73767 && spec_solar_days_before_year(1593) == 73771);
    assert(spec_year_aligned(1593));
    assert(spec_lunar_days_before_year(1594) == 74151 && spec_solar_days_before_year(1594) == 74136);
    assert(spec_year_aligned(1594));
    assert(spec_lunar_days_before_year(1595) == 74505 && spec_solar_days_before_year(1595) == 74501);
    assert(spec_year_aligned(1595));
    assert(spec_lunar_days_before_year(1596) == 74859 && spec_solar_days_before_year(1596) == 74866);
    assert(spec_year_aligned(1596));
    assert(spec_lunar_days_before_year(1597) == 75243 && spec_solar_days_before_year(1597) == 75232);
    assert(spec_year_aligned(1597));
    assert(spec_lunar_days_before_year(1598) == 75598 && spec_solar_days_before_year(1598) == 75597);
    assert(spec_year_aligned(1598));
    assert(spec_lunar_days_before_year(1599) == 75953 && spec_solar_days_before_year(1599) == 75962);
    assert(spec_year_aligned(1599));
    assert(spec_lunar_days_before_year(1600) == 76337 && spec_solar_days_before_year(1600) == 76327);
    assert(spec_year_aligned(1600));
    assert(spec_lunar_days_before_year(1601) == 76691 && spec_solar_days_before_year(1601) == 76693);
    assert(spec_year_aligned(1601));
    assert(spec_lunar_days_before_year(1602) == 77045 && spec_solar_days_before_year(1602) == 77058);
    assert(spec_year_aligned(1602));
    assert(spec_lunar_days_before_year(1603) == 77429 && spec_solar_days_before_year(1603) == 77423);
    assert(spec_year_aligned(1603));
    assert(spec_lunar_days_before_year(1604) == 77783 && spec_solar_days_before_year(1604) == 77788);
    assert(spec_year_aligned(1604));
    assert(spec_lunar_days_before_year(1605) == 78167 && spec_solar_days_before_year(1605) == 78154);
    assert(spec_year_aligned(1605));
    assert(spec_lunar_days_before_year(1606) == 78521 && spec_solar_days_before_year(1606) == 78519);
    assert(spec_year_aligned(1606));
    assert(spec_lunar_days_before_year(1607) == 78876 && spec_solar_days_before_year(1607) == 78884);
    assert(spec_year_aligned(1607));
    assert(spec_lunar_days_before_year(1608) == 79260 && spec_solar_days_before_year(1608) == 79249);
    assert(spec_year_aligned(1608));
    assert(spec_lunar_days_before_year(1609) == 79615 && spec_solar_days_before_year(1609) == 79615);
    assert(spec_year_aligned(1609));
    assert(spec_lunar_days_before_year(1610) == 79969 && spec_solar_days_before_year(1610) == 79980);
    assert(spec_year_aligned(1610));
    assert(spec_lunar_days_before_year(1611) == 80353 && spec_solar_days_before_year(1611) == 80345);
    assert(spec_year_aligned(1611));
    assert(spec_lunar_days_before_year(1612) == 80707 && spec_solar_days_before_year(1612) == 80710);
    assert(spec_year_aligned(1612));
    assert(spec_lunar_days_before_year(1613) == 81090 && spec_solar_days_before_year(1613) == 81076);
    assert(spec_year_aligned(1613));
    assert(spec_lunar_days_before_year(1614) == 81445 && spec_solar_days_before_year(1614) == 81441);
    assert(spec_year_aligned(1614));
    assert(spec_lunar_days_before_year(1615) == 81799 && spec_solar_days_before_year(1615) == 81806);
    assert(spec_year_aligned(1615));
    assert(spec_lunar_days_before_year(1616) == 82183 && spec_solar_days_before_year(1616) == 82171);
    assert(spec_year_aligned(1616));
    assert(spec_lunar_days_before_year(1617) == 82538 && spec_solar_days_before_year(1617) == 82537);
    assert(spec_year_aligned(1617));
    assert(spec_lunar_days_before_year(1618) == 82892 && spec_solar_days_before_year(1618) == 82902);
    assert(spec_year_aligned(1618));
    assert(spec_lunar_days_before_year(1619) == 83276 && spec_solar_days_before_year(1619) == 83267);
    assert(spec_year_aligned(1619));
    assert(spec_lunar_days_before_year(1620) == 83631 && spec_solar_days_before_year(1620) == 83632);
    assert(spec_year_aligned(1620));
    assert(spec_lunar_days_before_year(1621) == 83984 && spec_solar_days_before_year(1621) == 83998);
    assert(spec_year_aligned(1621));
    assert(spec_lunar_days_before_year(1622) == 84368 && spec_solar_days_before_year(1622) == 84363);
    assert(spec_year_aligned(1622));
    assert(spec_lunar_days_before_year(1623) == 84723 && spec_solar_days_before_year(1623) == 84728);
    assert(spec_year_aligned(1623));
    assert(spec_lunar_days_before_year(1624) == 85107 && spec_solar_days_before_year(1624) == 85093);
    assert(spec_year_aligned(1624));
    assert(spec_lunar_days_before_year(1625) == 85461 && spec_solar_days_before_year(1625) == 85459);
    assert(spec_year_aligned(1625));
    assert(spec_lunar_days_before_year(1626) == 85816 && spec_solar_days_before_year(1626) == 85824);
    assert(spec_year_aligned(1626));
    assert(spec_lunar_days_before_year(1627) == 86200 && spec_solar_days_before_year(1627) == 86189);
    assert(spec_year_aligned(1627));
    assert(spec_lunar_days_before_year(1628) == 86554 && spec_solar_days_before_year(1628) == 86554);
    assert(spec_year_aligned(1628));
    assert(spec_lunar_days_before_year(1629) == 86908 && spec_solar_days_before_year(1629) == 86920);
    assert(spec_year_aligned(1629));
    assert(spec_lunar_days_before_year(1630) == 87292 && spec_solar_days_before_year(1630) == 87285);
    assert(spec_year_aligned(1630));
    if year == 1591 {
    } else if year == 1592 {
    } else if year == 1593 {
    } else if year == 1594 {
    } else if year == 1595 {
    } else if year == 1596 {
    } else if year == 1597 {
    } else if year == 1598 {
    } else if year == 1599 {
    } else if year == 1600 {
    } else if year == 1601 {
    } else if year == 1602 {
    } else if year == 1603 {
    } else if year == 1604 {
    } else if year == 1605 {
    } else if year == 1606 {
    } else if year == 1607 {
    } else if year == 1608 {
    } else if year == 1609 {
    } else if year == 1610 {
    } else if year == 1611 {
    } else if year == 1612 {
    } else if year == 1613 {
    } else if year == 1614 {
    } else if year == 1615 {
    } else if year == 1616 {
    } else if year == 1617 {
    } else if year == 1618 {
    } else if year == 1619 {
    } else if year == 1620 {
    } else if year == 1621 {
    } else if year == 1622 {
    } else if year == 1623 {
    } else if year == 1624 {
    } else if year == 1625 {
    } else if year == 1626 {
    } else if year == 1627 {
    } else if year == 1628 {
    } else if year == 1629 {
    } else if year == 1630 {
    }
}

#[verifier::spinoff_prover]
#[verifier::rlimit(50)]
proof fn lemma_span_aligned_1631(year: int)
    requires
        1631 <= year < 1671,
    ensures
        spec_year_aligned(year),
{
    lemma_day_totals_1631();
    reveal_with_fuel(spec_lunar_days_before_year, 2);
    reveal_with_fuel(spec_solar_days_before_year, 2);
    assert(spec_year_aligned(1631));
    assert(spec_lunar_days_before_year(1632) == 88030 && spec_solar_days_before_year(1632) == 88015);
    assert(spec_year_aligned(1632));
    assert(spec_lunar_days_before_year(1633) == 88384 && spec_solar_days_before_year(1633) == 88381);
    assert(spec_year_aligned(1633));
    assert(spec_lunar_days_before_year(1634) == 88739 && spec_solar_days_before_year(1634) == 88746);
    assert(spec_year_aligned(1634));
    assert(spec_lunar_days_before_year(1635) == 89123 && spec_solar_days_before_year(1635) == 89111);
    assert(spec_year_aligned(1635));
    assert(spec_lunar_days_before_year(1636) == 89478 && spec_solar_days_before_year(1636) == 89476);
    assert(spec_year_aligned(1636));
    assert(spec_lunar_days_before_year(1637) == 89832 && spec_solar_days_before_year(1637) == 89842);
    assert(spec_year_aligned(1637));
    assert(spec_lunar_days_before_year(1638) == 90216 && spec_solar_days_before_year(1638) == 90207);
    assert(spec_year_aligned(1638));
    assert(spec_lunar_days_before_year(1639) == 90570 && spec_solar_days_before_year(1639) == 90572);
    assert(spec_year_aligned(1639));
    assert(spec_lunar_days_before_year(1640) == 90924 && spec_solar_days_before_year(1640) == 90937);
    assert(spec_year_aligned(1640));
    assert(spec_lunar_days_before_year(1641) == 91308 && spec_solar_days_before_year(1641) == 91303);
    assert(spec_year_aligned(1641));
    assert(spec_lunar_days_before_year(1642) == 91662 && spec_solar_days_before_year(1642) == 91668);
    assert(spec_year_aligned(1642));
    assert(spec_lunar_days_before_year(1643) == 92047 && spec_solar_days_before_year(1643) == 92033);
    assert(spec_year_aligned(1643));
    assert(spec_lunar_days_before_year(1644) == 92401 && spec_solar_days_before_year(1644) == 92398);
    assert(spec_year_aligned(1644));
    assert(spec_lunar_days_before_year(1645) == 92756 && spec_solar_days_before_year(1645) == 92764);
    assert(spec_year_aligned(1645));
    assert(spec_lunar_days_before_year(1646) == 93140 && spec_solar_days_before_year(1646) == 93129);
    assert(spec_year_aligned(1646));
    assert(spec_lunar_days_before_year(1647) == 93494 && spec_solar_days_before_year(1647) == 93494);
    assert(spec_year_aligned(1647));
    assert(spec_lunar_days_before_year(1648) == 93848 && spec_solar_days_before_year(1648) == 93859);
    assert(spec_year_aligned(1648));
    assert(spec_lunar_days_before_year(1649) == 94231 && spec_solar_days_before_year(1649) == 94225);
    assert(spec_year_aligned(1649));
    assert(spec_lunar_days_before_year(1650) == 94586 && spec_solar_days_before_year(1650) == 94590);
    assert(spec_year_aligned(1650));
    assert(spec_lunar_days_before_year(1651) == 94970 && spec_solar_days_before_year(1651) == 94955);
    assert(spec_year_aligned(1651));
    assert(spec_lunar_days_before_year(1652) == 95325 && spec_solar_days_before_year(1652) == 95320);
    assert(spec_year_aligned(1652));
    assert(spec_lunar_days_before_year(1653) == 95679 && spec_solar_days_before_year(1653) == 95686);
    assert(spec_year_aligned(1653));
    assert(spec_lunar_days_before_year(1654) == 96063 && spec_solar_days_before_year(1654) == 96051);
    assert(spec_year_aligned(1654));
    assert(spec_lunar_days_before_year(1655) == 96417 && spec_solar_days_before_year(1655) == 96416);
    assert(spec_year_aligned(1655));
    assert(spec_lunar_days_before_year(1656) == 96771 && spec_solar_days_before_year(1656) == 96781);
    assert(spec_year_aligned(1656));
    assert(spec_lunar_days_before_year(1657) == 97155 && spec_solar_days_before_year(1657) == 97147);
    assert(spec_year_aligned(1657));
    assert(spec_lunar_days_before_year(1658) == 97509 && spec_solar_days_before_year(1658) == 97512);
    assert(spec_year_aligned(1658));
    assert(spec_lunar_days_before_year(1659) == 97864 && spec_solar_days_before_year(1659) == 97877);
    assert(spec_year_aligned(1659));
    assert(spec_lunar_days_before_year(1660) == 98248 && spec_solar_days_before_year(1660) == 98242);
    assert(spec_year_aligned(1660));
    assert(spec_lunar_days_before_year(1661) == 98602 && spec_solar_days_before_year(1661) == 98608);
    assert(spec_year_aligned(1661));
    assert(spec_lunar_days_before_year(1662) == 98986 && spec_solar_days_before_year(1662) == 98973);
    assert(spec_year_aligned(1662));
    assert(spec_lunar_days_before_year(1663) == 99341 && spec_solar_days_before_year(1663) == 99338);
    assert(spec_year_aligned(1663));
    assert(spec_lunar_days_before_year(1664) == 99695 && spec_solar_days_before_year(1664) == 99703);
    assert(spec_year_aligned(1664));
    assert(spec_lunar_days_before_year(1665) == 100079 && spec_solar_days_before_year(1665) == 100069);
    assert(spec_year_aligned(1665));
    assert(spec_lunar_days_before_year(1666) == 100433 && spec_solar_days_before_year(1666) == 100434);
    assert(spec_year_aligned(1666));
    assert(spec_lunar_days_before_year(1667) == 100787 && spec_solar_days_before_year(1667) == 100799);
    assert(spec_year_aligned(1667));
    assert(spec_lunar_days_before_year(1668) == 101171 && spec_solar_days_before_year(1668) == 101164);
    assert(spec_year_aligned(1668));
    assert(spec_lunar_days_before_year(1669) == 101526 && spec_solar_days_before_year(1669) == 101530);
    assert(spec_year_aligned(1669));
    assert(spec_lunar_days_before_year(1670) == 101880 && spec_solar_days_before_year(1670) == 101895);
    assert(spec_year_aligned(1670));
    if year == 1631 {
    } else if year == 1632 {
    } else if year == 1633 {
    } else if year == 1634 {
    } else if year == 1635 {
    } else if year == 1636 {
    } else if year == 1637 {
    } else if year == 1638 {
    } else if year == 1639 {
    } else if year == 1640 {
    } else if year == 1641 {
    } else if year == 1642 {
    } else if year == 1643 {
    } else if year == 1644 {
    } else if year == 1645 {
    } else if year == 1646 {
    } else if year == 1647 {
    } else if year == 1648 {
    } else if year == 1649 {
    } else if year == 1650 {
    } else if year == 1651 {
    } else if year == 1652 {
    } else if year == 1653 {
    } else if year == 1654 {
    } else if year == 1655 {
    } else if year == 1656 {
    } else if year == 1657 {
    } else if year == 1658 {
    } else if year == 1659 {
    } else if year == 1660 {
    } else if year == 1661 {
    } else if year == 1662 {
    } else if year == 1663 {
    } else if year == 1664 {
    } else if year == 1665 {
    } else if year == 1666 {
    } else if year == 1667 {
    } else if year == 1668 {
    } else if year == 1669 {
    } else if year == 1670 {
    }
}

#[verifier::spinoff_prover]
#[verifier::rlimit(50)]
proof fn lemma_span_aligned_1671(year: int)
    requires
        1671 <= year < 1711,
    ensures
        spec_year_aligned(year),
{
    lemma_day_totals_1671();
    reveal_with_fuel(spec_lunar_days_before_year, 2);
    reveal_with_fuel(spec_solar_days_before_year, 2);
    assert(spec_year_aligned(1671));
    assert(spec_lunar_days_before_year(1672) == 102619 && spec_solar_days_before_year(1672) == 102625);
    assert(spec_year_aligned(1672));
    assert(spec_lunar_days_before_year(1673) == 103003 && spec_solar_days_before_year(1673) == 102991);
    assert(spec_year_aligned(1673));
    assert(spec_lunar_days_before_year(1674) == 103357 && spec_solar_days_before_year(1674) == 103356);
    assert(spec_year_aligned(1674));
    assert(spec_lunar_days_before_year(1675) == 103711 && spec_solar_days_before_year(1675) == 103721);
    assert(spec_year_aligned(1675));
    assert(spec_lunar_days_before_year(1676) == 104095 && spec_solar_days_before_year(1676) == 104086);
    assert(spec_year_aligned(1676));
    assert(spec_lunar_days_before_year(1677) == 104449 && spec_solar_days_before_year(1677) == 104452);
    assert(spec_year_aligned(1677));
    assert(spec_lunar_days_before_year(1678) == 104804 && spec_solar_days_before_year(1678) == 104817);
    assert(spec_year_aligned(1678));
    assert(spec_lunar_days_before_year(1679) == 105188 && spec_solar_days_before_year(1679) == 105182);
    assert(spec_year_aligned(1679));
    assert(spec_lunar_days_before_year(1680) == 105542 && spec_solar_days_before_year(1680) == 105547);
    assert(spec_year_aligned(1680));
    assert(spec_lunar_days_before_year(1681) == 105926 && spec_solar_days_before_year(1681) == 105913);
    assert(spec_year_aligned(1681));
    assert(spec_lunar_days_before_year(1682) == 106280 && spec_solar_days_before_year(1682) == 106278);
    assert(spec_year_aligned(1682));
    assert(spec_lunar_days_before_year(1683) == 106634 && spec_solar_days_before_year(1683) == 106643);
    assert(spec_year_aligned(1683));
    assert(spec_lunar_days_before_year(1684) == 107018 && spec_solar_days_before_year(1684) == 107008);
    assert(spec_year_aligned(1684));
    assert(spec_lunar_days_before_year(1685) == 107372 && spec_solar_days_before_year(1685) == 107374);
    assert(spec_year_aligned(1685));
    assert(spec_lunar_days_before_year(1686) == 107727 && spec_solar_days_before_year(1686) == 107739);
    assert(spec_year_aligned(1686));
    assert(spec_lunar_days_before_year(1687) == 108111 && spec_solar_days_before_year(1687) == 108104);
    assert(spec_year_aligned(1687));
    assert(spec_lunar_days_before_year(1688) == 108466 && spec_solar_days_before_year(1688) == 108469);
    assert(spec_year_aligned(1688));
    assert(spec_lunar_days_before_year(1689) == 108820 && spec_solar_days_before_year(1689) == 108835);
    assert(spec_year_aligned(1689));
    assert(spec_lunar_days_before_year(1690) == 109204 && spec_solar_days_before_year(1690) == 109200);
    assert(spec_year_aligned(1690));
    assert(spec_lunar_days_before_year(1691) == 109558 && spec_solar_days_before_year(1691) == 109565);
    assert(spec_year_aligned(1691));
    assert(spec_lunar_days_before_year(1692) == 109942 && spec_solar_days_before_year(1692) == 109930);
    assert(spec_year_aligned(1692));
    assert(spec_lunar_days_before_year(1693) == 110296 && spec_solar_days_before_year(1693) == 110296);
    assert(spec_year_aligned(1693));
    assert(spec_lunar_days_before_year(1694) == 110650 && spec_solar_days_before_year(1694) == 110661);
    assert(spec_year_aligned(1694));
    assert(spec_lunar_days_before_year(1695) == 111034 && spec_solar_days_before_year(1695) == 111026);
    assert(spec_year_aligned(1695));
    assert(spec_lunar_days_before_year(1696) == 111389 && spec_solar_days_before_year(1696) == 111391);
    assert(spec_year_aligned(1696));
    assert(spec_lunar_days_before_year(1697) == 111744 && spec_solar_days_before_year(1697) == 111757);
    assert(spec_year_aligned(1697));
    assert(spec_lunar_days_before_year(1698) == 112128 && spec_solar_days_before_year(1698) == 112122);
    assert(spec_year_aligned(1698));
    assert(spec_lunar_days_before_year(1699) == 112482 && spec_solar_days_before_year(1699) == 112487);
    assert(spec_year_aligned(1699));
    assert(spec_lunar_days_before_year(1700) == 112866 && spec_solar_days_before_year(1700) == 112852);
    assert(spec_year_aligned(1700));
    assert(spec_lunar_days_before_year(1701) == 113220 && spec_solar_days_before_year(1701) == 113217);
    assert(spec_year_aligned(1701));
    assert(spec_lunar_days_before_year(1702) == 113574 && spec_solar_days_before_year(1702) == 113582);
    assert(spec_year_aligned(1702));
    assert(spec_lunar_days_before_year(1703) == 113958 && spec_solar_days_before_year(1703) == 113947);
    assert(spec_year_aligned(1703));
    assert(spec_lunar_days_before_year(1704) == 114312 && spec_solar_days_before_year(1704) == 114312);
    assert(spec_year_aligned(1704));
    assert(spec_lunar_days_before_year(1705) == 114667 && spec_solar_days_before_year(1705) == 114678);
    assert(spec_year_aligned(1705));
    assert(spec_lunar_days_before_year(1706) == 115051 && spec_solar_days_before_year(1706) == 115043);
    assert(spec_year_aligned(1706));
    assert(spec_lunar_days_before_year(1707) == 115406 && spec_solar_days_before_year(1707) == 115408);
    assert(spec_year_aligned(1707));
    assert(spec_lunar_days_before_year(1708) == 115760 && spec_solar_days_before_year(1708) == 115773);
    assert(spec_year_aligned(1708));
    assert(spec_lunar_days_before_year(1709) == 116144 && spec_solar_days_before_year(1709) == 116139);
    assert(spec_year_aligned(1709));
    assert(spec_lunar_days_before_year(1710) == 116498 && spec_solar_days_before_year(1710) == 116504);
    assert(spec_year_aligned(1710));
    if year == 1671 {
    } else if year == 1672 {
    } else if year == 1673 {
    } else if year == 1674 {
    } else if year == 1675 {
    } else if year == 1676 {
    } else if year == 1677 {
    } else if year == 1678 {
    } else if year == 1679 {
    } else if year == 1680 {
    } else if year == 1681 {
    } else if year == 1682 {
    } else if year == 1683 {
    } else if year == 1684 {
    } else if year == 1685 {
    } else if year == 1686 {
    } else if year == 1687 {
    } else if year == 1688 {
    } else if year == 1689 {
    } else if year == 1690 {
    } else if year == 1691 {
    } else if year == 1692 {
    } else if year == 1693 {
    } else if year == 1694 {
    } else if year == 1695 {
    } else if year == 1696 {
    } else if year == 1697 {
    } else if year == 1698 {
    } else if year == 1699 {
    } else if year == 1700 {
    } else if year == 1701 {
    } else if year == 1702 {
    } else if year == 1703 {
    } else if year == 1704 {
    } else if year == 1705 {
    } else if year == 1706 {
    } else if year == 1707 {
    } else if year == 1708 {
    } else if year == 1709 {
    } else if year == 1710 {
    }
}

#[verifier::spinoff_prover]
#[verifier::rlimit(50)]
proof fn lemma_span_aligned_1711(year: int)
    requires
        1711 <= year < 1751,
    ensures
        spec_year_aligned(year),
{
    lemma_day_totals_1711();
    reveal_with_fuel(spec_lunar_days_before_year, 2);
    reveal_with_fuel(spec_solar_days_before_year, 2);
    assert(spec_year_aligned(1711));
    assert(spec_lunar_days_before_year(1712) == 117236 && spec_solar_days_before_year(1712) == 117234);
    assert(spec_year_aligned(1712));
    assert(spec_lunar_days_before_year(1713) == 117590 && spec_solar_days_before_year(1713) == 117600);
    assert(spec_year_aligned(1713));
    assert(spec_lunar_days_before_year(1714) == 117974 && spec_solar_days_before_year(1714) == 117965);
    assert(spec_year_aligned(1714));
    assert(spec_lunar_days_before_year(1715) == 118329 && spec_solar_days_before_year(1715) == 118330);
    assert(spec_year_aligned(1715));
    assert(spec_lunar_days_before_year(1716) == 118683 && spec_solar_days_before_year(1716) == 118695);
    assert(spec_year_aligned(1716));
    assert(spec_lunar_days_before_year(1717) == 119067 && spec_solar_days_before_year(1717) == 119061);
    assert(spec_year_aligned(1717));
    assert(spec_lunar_days_before_year(1718) == 119421 && spec_solar_days_before_year(1718) == 119426);
    assert(spec_year_aligned(1718));
    assert(spec_lunar_days_before_year(1719) == 119805 && spec_solar_days_before_year(1719) == 119791);
    assert(spec_year_aligned(1719));
    assert(spec_lunar_days_before_year(1720) == 120159 && spec_solar_days_before_year(1720) == 120156);
    assert(spec_year_aligned(1720));
    assert(spec_lunar_days_before_year(1721) == 120514 && spec_solar_days_before_year(1721) == 120522);
    assert(spec_year_aligned(1721));
    assert(spec_lunar_days_before_year(1722) == 120898 && spec_solar_days_before_year(1722) == 120887);
    assert(spec_year_aligned(1722));
    assert(spec_lunar_days_before_year(1723) == 121252 && spec_solar_days_before_year(1723) == 121252);
    assert(spec_year_aligned(1723));
    assert(spec_lunar_days_before_year(1724) == 121607 && spec_solar_days_before_year(1724) == 121617);
    assert(spec_year_aligned(1724));
    assert(spec_lunar_days_before_year(1725) == 121991 && spec_solar_days_before_year(1725) == 121983);
    assert(spec_year_aligned(1725));
    assert(spec_lunar_days_before_year(1726) == 122345 && spec_solar_days_before_year(1726) == 122348);
    assert(spec_year_aligned(1726));
    assert(spec_lunar_days_before_year(1727) == 122699 && spec_solar_days_before_year(1727) == 122713);
    assert(spec_year_aligned(1727));
    assert(spec_lunar_days_before_year(1728) == 123083 && spec_solar_days_before_year(1728) == 123078);
    assert(spec_year_aligned(1728));
    assert(spec_lunar_days_before_year(1729) == 123437 && spec_solar_days_before_year(1729) == 123444);
    assert(spec_year_aligned(1729));
    assert(spec_lunar_days_before_year(1730) == 123821 && spec_solar_days_before_year(1730) == 123809);
    assert(spec_year_aligned(1730));
    assert(spec_lunar_days_before_year(1731) == 124176 && spec_solar_days_before_year(1731) == 124174);
    assert(spec_year_aligned(1731));
    assert(spec_lunar_days_before_year(1732) == 124530 && spec_solar_days_before_year(1732) == 124539);
    assert(spec_year_aligned(1732));
    assert(spec_lunar_days_before_year(1733) == 124914 && spec_solar_days_before_year(1733) == 124905);
    assert(spec_year_aligned(1733));
    assert(spec_lunar_days_before_year(1734) == 125269 && spec_solar_days_before_year(1734) == 125270);
    assert(spec_year_aligned(1734));
    assert(spec_lunar_days_before_year(1735) == 125623 && spec_solar_days_before_year(1735) == 125635);
    assert(spec_year_aligned(1735));
    assert(spec_lunar_days_before_year(1736) == 126007 && spec_solar_days_before_year(1736) == 126000);
    assert(spec_year_aligned(1736));
    assert(spec_lunar_days_before_year(1737) == 126361 && spec_solar_days_before_year(1737) == 126366);
    assert(spec_year_aligned(1737));
    assert(spec_lunar_days_before_year(1738) == 126745 && spec_solar_days_before_year(1738) == 126731);
    assert(spec_year_aligned(1738));
    assert(spec_lunar_days_before_year(1739) == 127099 && spec_solar_days_before_year(1739) == 127096);
    assert(spec_year_aligned(1739));
    assert(spec_lunar_days_before_year(1740) == 127454 && spec_solar_days_before_year(1740) == 127461);
    assert(spec_year_aligned(1740));
    assert(spec_lunar_days_before_year(1741) == 127838 && spec_solar_days_before_year(1741) == 127827);
    assert(spec_year_aligned(1741));
    assert(spec_lunar_days_before_year(1742) == 128192 && spec_solar_days_before_year(1742) == 128192);
    assert(spec_year_aligned(1742));
    assert(spec_lunar_days_before_year(1743) == 128547 && spec_solar_days_before_year(1743) == 128557);
    assert(spec_year_aligned(1743));
    assert(spec_lunar_days_before_year(1744) == 128930 && spec_solar_days_before_year(1744) == 128922);
    assert(spec_year_aligned(1744));
    assert(spec_lunar_days_before_year(1745) == 129284 && spec_solar_days_before_year(1745) == 129288);
    assert(spec_year_aligned(1745));
    assert(spec_lunar_days_before_year(1746) == 129639 && spec_solar_days_before_year(1746) == 129653);
    assert(spec_year_aligned(1746));
    assert(spec_lunar_days_before_year(1747) == 130022 && spec_solar_days_before_year(1747) == 130018);
    assert(spec_year_aligned(1747));
    assert(spec_lunar_days_before_year(1748) == 130377 && spec_solar_days_before_year(1748) == 130383);
    assert(spec_year_aligned(1748));
    assert(spec_lunar_days_before_year(1749) == 130761 && spec_solar_days_before_year(1749) == 130749);
    assert(spec_year_aligned(1749));
    assert(spec_lunar_days_before_year(1750) == 131116 && spec_solar_days_before_year(1750) == 131114);
    assert(spec_year_aligned(1750));
    if year == 1711 {
    } else if year == 1712 {
    } else if year == 1713 {
    } else if year == 1714 {
    } else if year == 1715 {
    } else if year == 1716 {
    } else if year == 1717 {
    } else if year == 1718 {
    } else if year == 1719 {
    } else if year == 1720 {
    } else if year == 1721 {
    } else if year == 1722 {
    } else if year == 1723 {
    } else if year == 1724 {
    } else if year == 1725 {
    } else if year == 1726 {
    } else if year == 1727 {
    } else if year == 1728 {
    } else if year == 1729 {
    } else if year == 1730 {
    } else if year == 1731 {
    } else if year == 1732 {
    } else if year == 1733 {
    } else if year == 1734 {
    } else if year == 1735 {
    } else if year == 1736 {
    } else if year == 1737 {
    } else if year == 1738 {
    } else if year == 1739 {
    } else if year == 1740 {
    } else if year == 1741 {
    } else if year == 1742 {
    } else if year == 1743 {
    } else if year == 1744 {
    } else if year == 1745 {
    } else if year == 1746 {
    } else if year == 1747 {
    } else if year == 1748 {
    } else if year == 1749 {
    } else if year == 1750 {
    }
}

#[verifier::spinoff_prover]
#[verifier::rlimit(50)]
proof fn lemma_span_aligned_1751(year: int)
    requires
        1751 <= year < 1791,
    ensures
        spec_year_aligned(year),
{
    lemma_day_totals_1751();
    reveal_with_fuel(spec_lunar_days_before_year, 2);
    reveal_with_fuel(spec_solar_days_before_year, 2);
    assert(spec_year_aligned(1751));
    assert(spec_lunar_days_before_year(1752) == 131854 && spec_solar_days_before_year(1752) == 131844);
    assert(spec_year_aligned(1752));
    assert(spec_lunar_days_before_year(1753) == 132208 && spec_solar_days_before_year(1753) == 132210);
    assert(spec_year_aligned(1753));
    assert(spec_lunar_days_before_year(1754) == 132562 && spec_solar_days_before_year(1754) == 132575);
    assert(spec_year_aligned(1754));
    assert(spec_lunar_days_before_year(1755) == 132946 && spec_solar_days_before_year(1755) == 132940);
    assert(spec_year_aligned(1755));
    assert(spec_lunar_days_before_year(1756) == 133300 && spec_solar_days_before_year(1756) == 133305);
    assert(spec_year_aligned(1756));
    assert(spec_lunar_days_before_year(1757) == 133684 && spec_solar_days_before_year(1757) == 133671);
    assert(spec_year_aligned(1757));
    assert(spec_lunar_days_before_year(1758) == 134039 && spec_solar_days_before_year(1758) == 134036);
    assert(spec_year_aligned(1758));
    assert(spec_lunar_days_before_year(1759) == 134394 && spec_solar_days_before_year(1759) == 134401);
    assert(spec_year_aligned(1759));
    assert(spec_lunar_days_before_year(1760) == 134778 && spec_solar_days_before_year(1760) == 134766);
    assert(spec_year_aligned(1760));
    assert(spec_lunar_days_before_year(1761) == 135132 && spec_solar_days_before_year(1761) == 135132);
    assert(spec_year_aligned(1761));
    assert(spec_lunar_days_before_year(1762) == 135486 && spec_solar_days_before_year(1762) == 135497);
    assert(spec_year_aligned(1762));
    assert(spec_lunar_days_before_year(1763) == 135870 && spec_solar_days_before_year(1763) == 135862);
    assert(spec_year_aligned(1763));
    assert(spec_lunar_days_before_year(1764) == 136224 && spec_solar_days_before_year(1764) == 136227);
    assert(spec_year_aligned(1764));
    assert(spec_lunar_days_before_year(1765) == 136578 && spec_solar_days_before_year(1765) == 136593);
    assert(spec_year_aligned(1765));
    assert(spec_lunar_days_before_year(1766) == 136962 && spec_solar_days_before_year(1766) == 136958);
    assert(spec_year_aligned(1766));
    assert(spec_lunar_days_before_year(1767) == 137317 && spec_solar_days_before_year(1767) == 137323);
    assert(spec_year_aligned(1767));
    assert(spec_lunar_days_before_year(1768) == 137701 && spec_solar_days_before_year(1768) == 137688);
    assert(spec_year_aligned(1768));
    assert(spec_lunar_days_before_year(1769) == 138056 && spec_solar_days_before_year(1769) == 138054);
    assert(spec_year_aligned(1769));
    assert(spec_lunar_days_before_year(1770) == 138410 && spec_solar_days_before_year(1770) == 138419);
    assert(spec_year_aligned(1770));
    assert(spec_lunar_days_before_year(1771) == 138794 && spec_solar_days_before_year(1771) == 138784);
    assert(spec_year_aligned(1771));
    assert(spec_lunar_days_before_year(1772) == 139148 && spec_solar_days_before_year(1772) == 139149);
    assert(spec_year_aligned(1772));
    assert(spec_lunar_days_before_year(1773) == 139502 && spec_solar_days_before_year(1773) == 139515);
    assert(spec_year_aligned(1773));
    assert(spec_lunar_days_before_year(1774) == 139886 && spec_solar_days_before_year(1774) == 139880);
    assert(spec_year_aligned(1774));
    assert(spec_lunar_days_before_year(1775) == 140240 && spec_solar_days_before_year(1775) == 140245);
    assert(spec_year_aligned(1775));
    assert(spec_lunar_days_before_year(1776) == 140624 && spec_solar_days_before_year(1776) == 140610);
    assert(spec_year_aligned(1776));
    assert(spec_lunar_days_before_year(1777) == 140979 && spec_solar_days_before_year(1777) == 140976);
    assert(spec_year_aligned(1777));
    assert(spec_lunar_days_before_year(1778) == 141333 && spec_solar_days_before_year(1778) == 141341);
    assert(spec_year_aligned(1778));
    assert(spec_lunar_days_before_year(1779) == 141717 && spec_solar_days_before_year(1779) == 141706);
    assert(spec_year_aligned(1779));
    assert(spec_lunar_days_before_year(1780) == 142071 && spec_solar_days_before_year(1780) == 142071);
    assert(spec_year_aligned(1780));
    assert(spec_lunar_days_before_year(1781) == 142425 && spec_solar_days_before_year(1781) == 142437);
    assert(spec_year_aligned(1781));
    assert(spec_lunar_days_before_year(1782) == 142809 && spec_solar_days_before_year(1782) == 142802);
    assert(spec_year_aligned(1782));
    assert(spec_lunar_days_before_year(1783) == 143164 && spec_solar_days_before_year(1783) == 143167);
    assert(spec_year_aligned(1783));
    assert(spec_lunar_days_before_year(1784) == 143518 && spec_solar_days_before_year(1784) == 143532);
    assert(spec_year_aligned(1784));
    assert(spec_lunar_days_before_year(1785) == 143902 && spec_solar_days_before_year(1785) == 143898);
    assert(spec_year_aligned(1785));
    assert(spec_lunar_days_before_year(1786) == 144257 && spec_solar_days_before_year(1786) == 144263);
    assert(spec_year_aligned(1786));
    assert(spec_lunar_days_before_year(1787) == 144641 && spec_solar_days_before_year(1787) == 144628);
    assert(spec_year_aligned(1787));
    assert(spec_lunar_days_before_year(1788) == 144995 && spec_solar_days_before_year(1788) == 144993);
    assert(spec_year_aligned(1788));
    assert(spec_lunar_days_before_year(1789) == 145349 && spec_solar_days_before_year(1789) == 145359);
    assert(spec_year_aligned(1789));
    assert(spec_lunar_days_before_year(1790) == 145733 && spec_solar_days_before_year(1790) == 145724);
    assert(spec_year_aligned(1790));
    if year == 1751 {
    } else if year == 1752 {
    } else if year == 1753 {
    } else if year == 1754 {
    } else if year == 1755 {
    } else if year == 1756 {
    } else if year == 1757 {
    } else if year == 1758 {
    } else if year == 1759 {
    } else if year == 1760 {
    } else if year == 1761 {
    } else if year == 1762 {
    } else if year == 1763 {
    } else if year == 1764 {
    } else if year == 1765 {
    } else if year == 1766 {
    } else if year == 1767 {
    } else if year == 1768 {
    } else if year == 1769 {
    } else if year == 1770 {
    } else if year == 1771 {
    } else if year == 1772 {
    } else if year == 1773 {
    } else if year == 1774 {
    } else if year == 1775 {
    } else if year == 1776 {
    } else if year == 1777 {
    } else if year == 1778 {
    } else if year == 1779 {
    } else if year == 1780 {
    } else if year == 1781 {
    } else if year == 1782 {
    } else if year == 1783 {
    } else if year == 1784 {
    } else if year == 1785 {
    } else if year == 1786 {
    } else if year == 1787 {
    } else if year == 1788 {
    } else if year == 1789 {
    } else if year == 1790 {
    }
}

#[verifier::spinoff_prover]
#[verifier::rlimit(50)]
proof fn lemma_span_aligned_1791(year: int)
    requires
        1791 <= year < 1831,
    ensures
        spec_year_aligned(year),
{
    lemma_day_totals_1791();
    reveal_with_fuel(spec_lunar_days_before_year, 2);
    reveal_with_fuel(spec_solar_days_before_year, 2);
    assert(spec_year_aligned(1791));
    assert(spec_lunar_days_before_year(1792) == 146442 && spec_solar_days_before_year(1792) == 146454);
    assert(spec_year_aligned(1792));
    assert(spec_lunar_days_before_year(1793) == 146826 && spec_solar_days_before_year(1793) == 146820);
    assert(spec_year_aligned(1793));
    assert(spec_lunar_days_before_year(1794) == 147180 && spec_solar_days_before_year(1794) == 147185);
    assert(spec_year_aligned(1794));
    assert(spec_lunar_days_before_year(1795) == 147535 && spec_solar_days_before_year(1795) == 147550);
    assert(spec_year_aligned(1795));
    assert(spec_lunar_days_before_year(1796) == 147919 && spec_solar_days_before_year(1796) == 147915);
    assert(spec_year_aligned(1796));
    assert(spec_lunar_days_before_year(1797) == 148273 && spec_solar_days_before_year(1797) == 148281);
    assert(spec_year_aligned(1797));
    assert(spec_lunar_days_before_year(1798) == 148657 && spec_solar_days_before_year(1798) == 148646);
    assert(spec_year_aligned(1798));
    assert(spec_lunar_days_before_year(1799) == 149011 && spec_solar_days_before_year(1799) == 149011);
    assert(spec_year_aligned(1799));
    assert(spec_lunar_days_before_year(1800) == 149365 && spec_solar_days_before_year(1800) == 149376);
    assert(spec_year_aligned(1800));
    assert(spec_lunar_days_before_year(1801) == 149749 && spec_solar_days_before_year(1801) == 149741);
    assert(spec_year_aligned(1801));
    assert(spec_lunar_days_before_year(1802) == 150104 && spec_solar_days_before_year(1802) == 150106);
    assert(spec_year_aligned(1802));
    assert(spec_lunar_days_before_year(1803) == 150458 && spec_solar_days_before_year(1803) == 150471);
    assert(spec_year_aligned(1803));
    assert(spec_lunar_days_before_year(1804) == 150842 && spec_solar_days_before_year(1804) == 150836);
    assert(spec_year_aligned(1804));
    assert(spec_lunar_days_before_year(1805) == 151197 && spec_solar_days_before_year(1805) == 151202);
    assert(spec_year_aligned(1805));
    assert(spec_lunar_days_before_year(1806) == 151580 && spec_solar_days_before_year(1806) == 151567);
    assert(spec_year_aligned(1806));
    assert(spec_lunar_days_before_year(1807) == 151934 && spec_solar_days_before_year(1807) == 151932);
    assert(spec_year_aligned(1807));
    assert(spec_lunar_days_before_year(1808) == 152289 && spec_solar_days_before_year(1808) == 152297);
    assert(spec_year_aligned(1808));
    assert(spec_lunar_days_before_year(1809) == 152672 && spec_solar_days_before_year(1809) == 152663);
    assert(spec_year_aligned(1809));
    assert(spec_lunar_days_before_year(1810) == 153027 && spec_solar_days_before_year(1810) == 153028);
    assert(spec_year_aligned(1810));
    assert(spec_lunar_days_before_year(1811) == 153382 && spec_solar_days_before_year(1811) == 153393);
    assert(spec_year_aligned(1811));
    assert(spec_lunar_days_before_year(1812) == 153766 && spec_solar_days_before_year(1812) == 153758);
    assert(spec_year_aligned(1812));
    assert(spec_lunar_days_before_year(1813) == 154120 && spec_solar_days_before_year(1813) == 154124);
    assert(spec_year_aligned(1813));
    assert(spec_lunar_days_before_year(1814) == 154474 && spec_solar_days_before_year(1814) == 154489);
    assert(spec_year_aligned(1814));
    assert(spec_lunar_days_before_year(1815) == 154858 && spec_solar_days_before_year(1815) == 154854);
    assert(spec_year_aligned(1815));
    assert(spec_lunar_days_before_year(1816) == 155212 && spec_solar_days_before_year(1816) == 155219);
    assert(spec_year_aligned(1816));
    assert(spec_lunar_days_before_year(1817) == 155596 && spec_solar_days_before_year(1817) == 155585);
    assert(spec_year_aligned(1817));
    assert(spec_lunar_days_before_year(1818) == 155950 && spec_solar_days_before_year(1818) == 155950);
    assert(spec_year_aligned(1818));
    assert(spec_lunar_days_before_year(1819) == 156305 && spec_solar_days_before_year(1819) == 156315);
    assert(spec_year_aligned(1819));
    assert(spec_lunar_days_before_year(1820) == 156689 && spec_solar_days_before_year(1820) == 156680);
    assert(spec_year_aligned(1820));
    assert(spec_lunar_days_before_year(1821) == 157044 && spec_solar_days_before_year(1821) == 157046);
    assert(spec_year_aligned(1821));
    assert(spec_lunar_days_before_year(1822) == 157398 && spec_solar_days_before_year(1822) == 157411);
    assert(spec_year_aligned(1822));
    assert(spec_lunar_days_before_year(1823) == 157782 && spec_solar_days_before_year(1823) == 157776);
    assert(spec_year_aligned(1823));
    assert(spec_lunar_days_before_year(1824) == 158136 && spec_solar_days_before_year(1824) == 158141);
    assert(spec_year_aligned(1824));
    assert(spec_lunar_days_before_year(1825) == 158520 && spec_solar_days_before_year(1825) == 158507);
    assert(spec_year_aligned(1825));
    assert(spec_lunar_days_before_year(1826) == 158874 && spec_solar_days_before_year(1826) == 158872);
    assert(spec_year_aligned(1826));
    assert(spec_lunar_days_before_year(1827) == 159228 && spec_solar_days_before_year(1827) == 159237);
    assert(spec_year_aligned(1827));
    assert(spec_lunar_days_before_year(1828) == 159612 && spec_solar_days_before_year(1828) == 159602);
    assert(spec_year_aligned(1828));
    assert(spec_lunar_days_before_year(1829) == 159967 && spec_solar_days_before_year(1829) == 159968);
    assert(spec_year_aligned(1829));
    assert(spec_lunar_days_before_year(1830) == 160322 && spec_solar_days_before_year(1830) == 160333);
    assert(spec_year_aligned(1830));
    if year == 1791 {
    } else if year == 1792 {
    } else if year == 1793 {
    } else if year == 1794 {
    } else if year == 1795 {
    } else if year == 1796 {
    } else if year == 1797 {
    } else if year == 1798 {
    } else if year == 1799 {
    } else if year == 1800 {
    } else if year == 1801 {
    } else if year == 1802 {
    } else if year == 1803 {
    } else if year == 1804 {
    } else if year == 1805 {
    } else if year == 1806 {
    } else if year == 1807 {
    } else if year == 1808 {
    } else if year == 1809 {
    } else if year == 1810 {
    } else if year == 1811 {
    } else if year == 1812 {
    } else if year == 1813 {
    } else if year == 1814 {
    } else if year == 1815 {
    } else if year == 1816 {
    } else if year == 1817 {
    } else if year == 1818 {
    } else if year == 1819 {
    } else if year == 1820 {
    } else if year == 1821 {
    } else if year == 1822 {
    } else if year == 1823 {
    } else if year == 1824 {
    } else if year == 1825 {
    } else if year == 1826 {
    } else if year == 1827 {
    } else if year == 1828 {
    } else if year == 1829 {
    } else if year == 1830 {
    }
}

#[verifier::spinoff_prover]
#[verifier::rlimit(50)]
proof fn lemma_span_aligned_1831(year: int)
    requires
        1831 <= year < 1871,
    ensures
        spec_year_aligned(year),
{
    lemma_day_totals_1831();
    reveal_with_fuel(spec_lunar_days_before_year, 2);
    reveal_with_fuel(spec_solar_days_before_year, 2);
    assert(spec_year_aligned(1831));
    assert(spec_lunar_days_before_year(1832) == 161060 && spec_solar_days_before_year(1832) == 161063);
    assert(spec_year_aligned(1832));
    assert(spec_lunar_days_before_year(1833) == 161444 && spec_solar_days_before_year(1833) == 161429);
    assert(spec_year_aligned(1833));
    assert(spec_lunar_days_before_year(1834) == 161798 && spec_solar_days_before_year(1834) == 161794);
    assert(spec_year_aligned(1834));
    assert(spec_lunar_days_before_year(1835) == 162152 && spec_solar_days_before_year(1835) == 162159);
    assert(spec_year_aligned(1835));
    assert(spec_lunar_days_before_year(1836) == 162536 && spec_solar_days_before_year(1836) == 162524);
    assert(spec_year_aligned(1836));
    assert(spec_lunar_days_before_year(1837) == 162890 && spec_solar_days_before_year(1837) == 162890);
    assert(spec_year_aligned(1837));
    assert(spec_lunar_days_before_year(1838) == 163245 && spec_solar_days_before_year(1838) == 163255);
    assert(spec_year_aligned(1838));
    assert(spec_lunar_days_before_year(1839) == 163629 && spec_solar_days_before_year(1839) == 163620);
    assert(spec_year_aligned(1839));
    assert(spec_lunar_days_before_year(1840) == 163983 && spec_solar_days_before_year(1840) == 163985);
    assert(spec_year_aligned(1840));
    assert(spec_lunar_days_before_year(1841) == 164338 && spec_solar_days_before_year(1841) == 164351);
    assert(spec_year_aligned(1841));
    assert(spec_lunar_days_before_year(1842) == 164721 && spec_solar_days_before_year(1842) == 164716);
    assert(spec_year_aligned(1842));
    assert(spec_lunar_days_before_year(1843) == 165075 && spec_solar_days_before_year(1843) == 165081);
    assert(spec_year_aligned(1843));
    assert(spec_lunar_days_before_year(1844) == 165459 && spec_solar_days_before_year(1844) == 165446);
    assert(spec_year_aligned(1844));
    assert(spec_lunar_days_before_year(1845) == 165814 && spec_solar_days_before_year(1845) == 165812);
    assert(spec_year_aligned(1845));
    assert(spec_lunar_days_before_year(1846) == 166168 && spec_solar_days_before_year(1846) == 166177);
    assert(spec_year_aligned(1846));
    assert(spec_lunar_days_before_year(1847) == 166552 && spec_solar_days_before_year(1847) == 166542);
    assert(spec_year_aligned(1847));
    assert(spec_lunar_days_before_year(1848) == 166907 && spec_solar_days_before_year(1848) == 166907);
    assert(spec_year_aligned(1848));
    assert(spec_lunar_days_before_year(1849) == 167261 && spec_solar_days_before_year(1849) == 167273);
    assert(spec_year_aligned(1849));
    assert(spec_lunar_days_before_year(1850) == 167645 && spec_solar_days_before_year(1850) == 167638);
    assert(spec_year_aligned(1850));
    assert(spec_lunar_days_before_year(1851) == 167999 && spec_solar_days_before_year(1851) == 168003);
    assert(spec_year_aligned(1851));
    assert(spec_lunar_days_before_year(1852) == 168383 && spec_solar_days_before_year(1852) == 168368);
    assert(spec_year_aligned(1852));
    assert(spec_lunar_days_before_year(1853) == 168737 && spec_solar_days_before_year(1853) == 168734);
    assert(spec_year_aligned(1853));
    assert(spec_lunar_days_before_year(1854) == 169092 && spec_solar_days_before_year(1854) == 169099);
    assert(spec_year_aligned(1854));
    assert(spec_lunar_days_before_year(1855) == 169476 && spec_solar_days_before_year(1855) == 169464);
    assert(spec_year_aligned(1855));
    assert(spec_lunar_days_before_year(1856) == 169830 && spec_solar_days_before_year(1856) == 169829);
    assert(spec_year_aligned(1856));
    assert(spec_lunar_days_before_year(1857) == 170185 && spec_solar_days_before_year(1857) == 170195);
    assert(spec_year_aligned(1857));
    assert(spec_lunar_days_before_year(1858) == 170569 && spec_solar_days_before_year(1858) == 170560);
    assert(spec_year_aligned(1858));
    assert(spec_lunar_days_before_year(1859) == 170923 && spec_solar_days_before_year(1859) == 170925);
    assert(spec_year_aligned(1859));
    assert(spec_lunar_days_before_year(1860) == 171277 && spec_solar_days_before_year(1860) == 171290);
    assert(spec_year_aligned(1860));
    assert(spec_lunar_days_before_year(1861) == 171661 && spec_solar_days_before_year(1861) == 171656);
    assert(spec_year_aligned(1861));
    assert(spec_lunar_days_before_year(1862) == 172015 && spec_solar_days_before_year(1862) == 172021);
    assert(spec_year_aligned(1862));
    assert(spec_lunar_days_before_year(1863) == 172399 && spec_solar_days_before_year(1863) == 172386);
    assert(spec_year_aligned(1863));
    assert(spec_lunar_days_before_year(1864) == 172754 && spec_solar_days_before_year(1864) == 172751);
    assert(spec_year_aligned(1864));
    assert(spec_lunar_days_before_year(1865) == 173108 && spec_solar_days_before_year(1865) == 173117);
    assert(spec_year_aligned(1865));
    assert(spec_lunar_days_before_year(1866) == 173492 && spec_solar_days_before_year(1866) == 173482);
    assert(spec_year_aligned(1866));
    assert(spec_lunar_days_before_year(1867) == 173847 && spec_solar_days_before_year(1867) == 173847);
    assert(spec_year_aligned(1867));
    assert(spec_lunar_days_before_year(1868) == 174201 && spec_solar_days_before_year(1868) == 174212);
    assert(spec_year_aligned(1868));
    assert(spec_lunar_days_before_year(1869) == 174584 && spec_solar_days_before_year(1869) == 174578);
    assert(spec_year_aligned(1869));
    assert(spec_lunar_days_before_year(1870) == 174938 && spec_solar_days_before_year(1870) == 174943);
    assert(spec_year_aligned(1870));
    if year == 1831 {
    } else if year == 1832 {
    } else if year == 1833 {
    } else if year == 1834 {
    } else if year == 1835 {
    } else if year == 1836 {
    } else if year == 1837 {
    } else if year == 1838 {
    } else if year == 1839 {
    } else if year == 1840 {
    } else if year == 1841 {
    } else if year == 1842 {
    } else if year == 1843 {
    } else if year == 1844 {
    } else if year == 1845 {
    } else if year == 1846 {
    } else if year == 1847 {
    } else if year == 1848 {
    } else if year == 1849 {
    } else if year == 1850 {
    } else if year == 1851 {
    } else if year == 1852 {
    } else if year == 1853 {
    } else if year == 1854 {
    } else if year == 1855 {
    } else if year == 1856 {
    } else if year == 1857 {
    } else if year == 1858 {
    } else if year == 1859 {
    } else if year == 1860 {
    } else if year == 1861 {
    } else if year == 1862 {
    } else if year == 1863 {
    } else if year == 1864 {
    } else if year == 1865 {
    } else if year == 1866 {
    } else if year == 1867 {
    } else if year == 1868 {
    } else if year == 1869 {
    } else if year == 1870 {
    }
}

#[verifier::spinoff_prover]
#[verifier::rlimit(50)]
proof fn lemma_span_aligned_1871(year: int)
    requires
        1871 <= year < 1911,
    ensures
        spec_year_aligned(year),
{
    lemma_day_totals_1871();
    reveal_with_fuel(spec_lunar_days_before_year, 2);
    reveal_with_fuel(spec_solar_days_before_year, 2);
    assert(spec_year_aligned(1871));
    assert(spec_lunar_days_before_year(1872) == 175677 && spec_solar_days_before_year(1872) == 175673);
    assert(spec_year_aligned(1872));
    assert(spec_lunar_days_before_year(1873) == 176032 && spec_solar_days_before_year(1873) == 176039);
    assert(spec_year_aligned(1873));
    assert(spec_lunar_days_before_year(1874) == 176416 && spec_solar_days_before_year(1874) == 176404);
    assert(spec_year_aligned(1874));
    assert(spec_lunar_days_before_year(1875) == 176770 && spec_solar_days_before_year(1875) == 176769);
    assert(spec_year_aligned(1875));
    assert(spec_lunar_days_before_year(1876) == 177124 && spec_solar_days_before_year(1876) == 177134);
    assert(spec_year_aligned(1876));
    assert(spec_lunar_days_before_year(1877) == 177508 && spec_solar_days_before_year(1877) == 177500);
    assert(spec_year_aligned(1877));
    assert(spec_lunar_days_before_year(1878) == 177862 && spec_solar_days_before_year(1878) == 177865);
    assert(spec_year_aligned(1878));
    assert(spec_lunar_days_before_year(1879) == 178216 && spec_solar_days_before_year(1879) == 178230);
    assert(spec_year_aligned(1879));
    assert(spec_lunar_days_before_year(1880) == 178600 && spec_solar_days_before_year(1880) == 178595);
    assert(spec_year_aligned(1880));
    assert(spec_lunar_days_before_year(1881) == 178955 && spec_solar_days_before_year(1881) == 178961);
    assert(spec_year_aligned(1881));
    assert(spec_lunar_days_before_year(1882) == 179339 && spec_solar_days_before_year(1882) == 179326);
    assert(spec_year_aligned(1882));
    assert(spec_lunar_days_before_year(1883) == 179694 && spec_solar_days_before_year(1883) == 179691);
    assert(spec_year_aligned(1883));
    assert(spec_lunar_days_before_year(1884) == 180048 && spec_solar_days_before_year(1884) == 180056);
    assert(spec_year_aligned(1884));
    assert(spec_lunar_days_before_year(1885) == 180432 && spec_solar_days_before_year(1885) == 180422);
    assert(spec_year_aligned(1885));
    assert(spec_lunar_days_before_year(1886) == 180786 && spec_solar_days_before_year(1886) == 180787);
    assert(spec_year_aligned(1886));
    assert(spec_lunar_days_before_year(1887) == 181140 && spec_solar_days_before_year(1887) == 181152);
    assert(spec_year_aligned(1887));
    assert(spec_lunar_days_before_year(1888) == 181524 && spec_solar_days_before_year(1888) == 181517);
    assert(spec_year_aligned(1888));
    assert(spec_lunar_days_before_year(1889) == 181878 && spec_solar_days_before_year(1889) == 181883);
    assert(spec_year_aligned(1889));
    assert(spec_lunar_days_before_year(1890) == 182233 && spec_solar_days_before_year(1890) == 182248);
    assert(spec_year_aligned(1890));
    assert(spec_lunar_days_before_year(1891) == 182617 && spec_solar_days_before_year(1891) == 182613);
    assert(spec_year_aligned(1891));
    assert(spec_lunar_days_before_year(1892) == 182972 && spec_solar_days_before_year(1892) == 182978);
    assert(spec_year_aligned(1892));
    assert(spec_lunar_days_before_year(1893) == 183356 && spec_solar_days_before_year(1893) == 183344);
    assert(spec_year_aligned(1893));
    assert(spec_lunar_days_before_year(1894) == 183710 && spec_solar_days_before_year(1894) == 183709);
    assert(spec_year_aligned(1894));
    assert(spec_lunar_days_before_year(1895) == 184064 && spec_solar_days_before_year(1895) == 184074);
    assert(spec_year_aligned(1895));
    assert(spec_lunar_days_before_year(1896) == 184447 && spec_solar_days_before_year(1896) == 184439);
    assert(spec_year_aligned(1896));
    assert(spec_lunar_days_before_year(1897) == 184802 && spec_solar_days_before_year(1897) == 184805);
    assert(spec_year_aligned(1897));
    assert(spec_lunar_days_before_year(1898) == 185156 && spec_solar_days_before_year(1898) == 185170);
    assert(spec_year_aligned(1898));
    assert(spec_lunar_days_before_year(1899) == 185540 && spec_solar_days_before_year(1899) == 185535);
    assert(spec_year_aligned(1899));
    assert(spec_lunar_days_before_year(1900) == 185895 && spec_solar_days_before_year(1900) == 185900);
    assert(spec_year_aligned(1900));
    assert(spec_lunar_days_before_year(1901) == 186279 && spec_solar_days_before_year(1901) == 186265);
    assert(spec_year_aligned(1901));
    assert(spec_lunar_days_before_year(1902) == 186633 && spec_solar_days_before_year(1902) == 186630);
    assert(spec_year_aligned(1902));
    assert(spec_lunar_days_before_year(1903) == 186988 && spec_solar_days_before_year(1903) == 186995);
    assert(spec_year_aligned(1903));
    assert(spec_lunar_days_before_year(1904) == 187371 && spec_solar_days_before_year(1904) == 187360);
    assert(spec_year_aligned(1904));
    assert(spec_lunar_days_before_year(1905) == 187725 && spec_solar_days_before_year(1905) == 187726);
    assert(spec_year_aligned(1905));
    assert(spec_lunar_days_before_year(1906) == 188080 && spec_solar_days_before_year(1906) == 188091);
    assert(spec_year_aligned(1906));
    assert(spec_lunar_days_before_year(1907) == 188464 && spec_solar_days_before_year(1907) == 188456);
    assert(spec_year_aligned(1907));
    assert(spec_lunar_days_before_year(1908) == 188818 && spec_solar_days_before_year(1908) == 188821);
    assert(spec_year_aligned(1908));
    assert(spec_lunar_days_before_year(1909) == 189173 && spec_solar_days_before_year(1909) == 189187);
    assert(spec_year_aligned(1909));
    assert(spec_lunar_days_before_year(1910) == 189557 && spec_solar_days_before_year(1910) == 189552);
    assert(spec_year_aligned(1910));
    if year == 1871 {
    } else if year == 1872 {
    } else if year == 1873 {
    } else if year == 1874 {
    } else if year == 1875 {
    } else if year == 1876 {
    } else if year == 1877 {
    } else if year == 1878 {
    } else if year == 1879 {
    } else if year == 1880 {
    } else if year == 1881 {
    } else if year == 1882 {
    } else if year == 1883 {
    } else if year == 1884 {
    } else if year == 1885 {
    } else if year == 1886 {
    } else if year == 1887 {
    } else if year == 1888 {
    } else if year == 1889 {
    } else if year == 1890 {
    } else if year == 1891 {
    } else if year == 1892 {
    } else if year == 1893 {
    } else if year == 1894 {
    } else if year == 1895 {
    } else if year == 1896 {
    } else if year == 1897 {
    } else if year == 1898 {
    } else if year == 1899 {
    } else if year == 1900 {
    } else if year == 1901 {
    } else if year == 1902 {
    } else if year == 1903 {
    } else if year == 1904 {
    } else if year == 1905 {
    } else if year == 1906 {
    } else if year == 1907 {
    } else if year == 1908 {
    } else if year == 1909 {
    } else if year == 1910 {
    }
}

#[verifier::spinoff_prover]
#[verifier::rlimit(50)]
proof fn lemma_span_aligned_1911(year: int)
    requires
        1911 <= year < 1951,
    ensures
        spec_year_aligned(year),
{
    lemma_day_totals_1911();
    reveal_with_fuel(spec_lunar_days_before_year, 2);
    reveal_with_fuel(spec_solar_days_before_year, 2);
    assert(spec_year_aligned(1911));
    assert(spec_lunar_days_before_year(1912) == 190295 && spec_solar_days_before_year(1912) == 190282);
    assert(spec_year_aligned(1912));
    assert(spec_lunar_days_before_year(1913) == 190649 && spec_solar_days_before_year(1913) == 190648);
    assert(spec_year_aligned(1913));
    assert(spec_lunar_days_before_year(1914) == 191003 && spec_solar_days_before_year(1914) == 191013);
    assert(spec_year_aligned(1914));
    assert(spec_lunar_days_before_year(1915) == 191387 && spec_solar_days_before_year(1915) == 191378);
    assert(spec_year_aligned(1915));
    assert(spec_lunar_days_before_year(1916) == 191742 && spec_solar_days_before_year(1916) == 191743);
    assert(spec_year_aligned(1916));
    assert(spec_lunar_days_before_year(1917) == 192096 && spec_solar_days_before_year(1917) == 192109);
    assert(spec_year_aligned(1917));
    assert(spec_lunar_days_before_year(1918) == 192480 && spec_solar_days_before_year(1918) == 192474);
    assert(spec_year_aligned(1918));
    assert(spec_lunar_days_before_year(1919) == 192835 && spec_solar_days_before_year(1919) == 192839);
    assert(spec_year_aligned(1919));
    assert(spec_lunar_days_before_year(1920) == 193219 && spec_solar_days_before_year(1920) == 193204);
    assert(spec_year_aligned(1920));
    assert(spec_lunar_days_before_year(1921) == 193573 && spec_solar_days_before_year(1921) == 193570);
    assert(spec_year_aligned(1921));
    assert(spec_lunar_days_before_year(1922) == 193927 && spec_solar_days_before_year(1922) == 193935);
    assert(spec_year_aligned(1922));
    assert(spec_lunar_days_before_year(1923) == 194311 && spec_solar_days_before_year(1923) == 194300);
    assert(spec_year_aligned(1923));
    assert(spec_lunar_days_before_year(1924) == 194665 && spec_solar_days_before_year(1924) == 194665);
    assert(spec_year_aligned(1924));
    assert(spec_lunar_days_before_year(1925) == 195019 && spec_solar_days_before_year(1925) == 195031);
    assert(spec_year_aligned(1925));
    assert(spec_lunar_days_before_year(1926) == 195404 && spec_solar_days_before_year(1926) == 195396);
    assert(spec_year_aligned(1926));
    assert(spec_lunar_days_before_year(1927) == 195758 && spec_solar_days_before_year(1927) == 195761);
    assert(spec_year_aligned(1927));
    assert(spec_lunar_days_before_year(1928) == 196113 && spec_solar_days_before_year(1928) == 196126);
    assert(spec_year_aligned(1928));
    assert(spec_lunar_days_before_year(1929) == 196497 && spec_solar_days_before_year(1929) == 196492);
    assert(spec_year_aligned(1929));
    assert(spec_lunar_days_before_year(1930) == 196851 && spec_solar_days_before_year(1930) == 196857);
    assert(spec_year_aligned(1930));
    assert(spec_lunar_days_before_year(1931) == 197234 && spec_solar_days_before_year(1931) == 197222);
    assert(spec_year_aligned(1931));
    assert(spec_lunar_days_before_year(1932) == 197588 && spec_solar_days_before_year(1932) == 197587);
    assert(spec_year_aligned(1932));
    assert(spec_lunar_days_before_year(1933) == 197943 && spec_solar_days_before_year(1933) == 197953);
    assert(spec_year_aligned(1933));
    assert(spec_lunar_days_before_year(1934) == 198327 && spec_solar_days_before_year(1934) == 198318);
    assert(spec_year_aligned(1934));
    assert(spec_lunar_days_before_year(1935) == 198682 && spec_solar_days_before_year(1935) == 198683);
    assert(spec_year_aligned(1935));
    assert(spec_lunar_days_before_year(1936) == 199036 && spec_solar_days_before_year(1936) == 199048);
    assert(spec_year_aligned(1936));
    assert(spec_lunar_days_before_year(1937) == 199420 && spec_solar_days_before_year(1937) == 199414);
    assert(spec_year_aligned(1937));
    assert(spec_lunar_days_before_year(1938) == 199774 && spec_solar_days_before_year(1938) == 199779);
    assert(spec_year_aligned(1938));
    assert(spec_lunar_days_before_year(1939) == 200158 && spec_solar_days_before_year(1939) == 200144);
    assert(spec_year_aligned(1939));
    assert(spec_lunar_days_before_year(1940) == 200512 && spec_solar_days_before_year(1940) == 200509);
    assert(spec_year_aligned(1940));
    assert(spec_lunar_days_before_year(1941) == 200866 && spec_solar_days_before_year(1941) == 200875);
    assert(spec_year_aligned(1941));
    assert(spec_lunar_days_before_year(1942) == 201250 && spec_solar_days_before_year(1942) == 201240);
    assert(spec_year_aligned(1942));
    assert(spec_lunar_days_before_year(1943) == 201605 && spec_solar_days_before_year(1943) == 201605);
    assert(spec_year_aligned(1943));
    assert(spec_lunar_days_before_year(1944) == 201960 && spec_solar_days_before_year(1944) == 201970);
    assert(spec_year_aligned(1944));
    assert(spec_lunar_days_before_year(1945) == 202344 && spec_solar_days_before_year(1945) == 202336);
    assert(spec_year_aligned(1945));
    assert(spec_lunar_days_before_year(1946) == 202698 && spec_solar_days_before_year(1946) == 202701);
    assert(spec_year_aligned(1946));
    assert(spec_lunar_days_before_year(1947) == 203052 && spec_solar_days_before_year(1947) == 203066);
    assert(spec_year_aligned(1947));
    assert(spec_lunar_days_before_year(1948) == 203436 && spec_solar_days_before_year(1948) == 203431);
    assert(spec_year_aligned(1948));
    assert(spec_lunar_days_before_year(1949) == 203790 && spec_solar_days_before_year(1949) == 203797);
    assert(spec_year_aligned(1949));
    assert(spec_lunar_days_before_year(1950) == 204174 && spec_solar_days_before_year(1950) == 204162);
    assert(spec_year_aligned(1950));
    if year == 1911 {
    } else if year == 1912 {
    } else if year == 1913 {
    } else if year == 1914 {
    } else if year == 1915 {
    } else if year == 1916 {
    } else if year == 1917 {
    } else if year == 1918 {
    } else if year == 1919 {
    } else if year == 1920 {
    } else if year == 1921 {
    } else if year == 1922 {
    } else if year == 1923 {
    } else if year == 1924 {
    } else if year == 1925 {
    } else if year == 1926 {
    } else if year == 1927 {
    } else if year == 1928 {
    } else if year == 1929 {
    } else if year == 1930 {
    } else if year == 1931 {
    } else if year == 1932 {
    } else if year == 1933 {
    } else if year == 1934 {
    } else if year == 1935 {
    } else if year == 1936 {
    } else if year == 1937 {
    } else if year == 1938 {
    } else if year == 1939 {
    } else if year == 1940 {
    } else if year == 1941 {
    } else if year == 1942 {
    } else if year == 1943 {
    } else if year == 1944 {
    } else if year == 1945 {
    } else if year == 1946 {
    } else if year == 1947 {
    } else if year == 1948 {
    } else if year == 1949 {
    } else if year == 1950 {
    }
}

#[verifier::spinoff_prover]
#[verifier::rlimit(50)]
proof fn lemma_span_aligned_1951(year: int)
    requires
        1951 <= year < 1991,
    ensures
        spec_year_aligned(year),
{
    lemma_day_totals_1951();
    reveal_with_fuel(spec_lunar_days_before_year, 2);
    reveal_with_fuel(spec_solar_days_before_year, 2);
    assert(spec_year_aligned(1951));
    assert(spec_lunar_days_before_year(1952) == 204883 && spec_solar_days_before_year(1952) == 204892);
    assert(spec_year_aligned(1952));
    assert(spec_lunar_days_before_year(1953) == 205267 && spec_solar_days_before_year(1953) == 205258);
    assert(spec_year_aligned(1953));
    assert(spec_lunar_days_before_year(1954) == 205622 && spec_solar_days_before_year(1954) == 205623);
    assert(spec_year_aligned(1954));
    assert(spec_lunar_days_before_year(1955) == 205976 && spec_solar_days_before_year(1955) == 205988);
    assert(spec_year_aligned(1955));
    assert(spec_lunar_days_before_year(1956) == 206360 && spec_solar_days_before_year(1956) == 206353);
    assert(spec_year_aligned(1956));
    assert(spec_lunar_days_before_year(1957) == 206714 && spec_solar_days_before_year(1957) == 206719);
    assert(spec_year_aligned(1957));
    assert(spec_lunar_days_before_year(1958) == 207098 && spec_solar_days_before_year(1958) == 207084);
    assert(spec_year_aligned(1958));
    assert(spec_lunar_days_before_year(1959) == 207452 && spec_solar_days_before_year(1959) == 207449);
    assert(spec_year_aligned(1959));
    assert(spec_lunar_days_before_year(1960) == 207806 && spec_solar_days_before_year(1960) == 207814);
    assert(spec_year_aligned(1960));
    assert(spec_lunar_days_before_year(1961) == 208190 && spec_solar_days_before_year(1961) == 208180);
    assert(spec_year_aligned(1961));
    assert(spec_lunar_days_before_year(1962) == 208545 && spec_solar_days_before_year(1962) == 208545);
    assert(spec_year_aligned(1962));
    assert(spec_lunar_days_before_year(1963) == 208899 && spec_solar_days_before_year(1963) == 208910);
    assert(spec_year_aligned(1963));
    assert(spec_lunar_days_before_year(1964) == 209283 && spec_solar_days_before_year(1964) == 209275);
    assert(spec_year_aligned(1964));
    assert(spec_lunar_days_before_year(1965) == 209638 && spec_solar_days_before_year(1965) == 209641);
    assert(spec_year_aligned(1965));
    assert(spec_lunar_days_before_year(1966) == 209992 && spec_solar_days_before_year(1966) == 210006);
    assert(spec_year_aligned(1966));
    assert(spec_lunar_days_before_year(1967) == 210375 && spec_solar_days_before_year(1967) == 210371);
    assert(spec_year_aligned(1967));
    assert(spec_lunar_days_before_year(1968) == 210730 && spec_solar_days_before_year(1968) == 210736);
    assert(spec_year_aligned(1968));
    assert(spec_lunar_days_before_year(1969) == 211114 && spec_solar_days_before_year(1969) == 211102);
    assert(spec_year_aligned(1969));
    assert(spec_lunar_days_before_year(1970) == 211468 && spec_solar_days_before_year(1970) == 211467);
    assert(spec_year_aligned(1970));
    assert(spec_lunar_days_before_year(1971) == 211823 && spec_solar_days_before_year(1971) == 211832);
    assert(spec_year_aligned(1971));
    assert(spec_lunar_days_before_year(1972) == 212207 && spec_solar_days_before_year(1972) == 212197);
    assert(spec_year_aligned(1972));
    assert(spec_lunar_days_before_year(1973) == 212561 && spec_solar_days_before_year(1973) == 212563);
    assert(spec_year_aligned(1973));
    assert(spec_lunar_days_before_year(1974) == 212915 && spec_solar_days_before_year(1974) == 212928);
    assert(spec_year_aligned(1974));
    assert(spec_lunar_days_before_year(1975) == 213299 && spec_solar_days_before_year(1975) == 213293);
    assert(spec_year_aligned(1975));
    assert(spec_lunar_days_before_year(1976) == 213653 && spec_solar_days_before_year(1976) == 213658);
    assert(spec_year_aligned(1976));
    assert(spec_lunar_days_before_year(1977) == 214037 && spec_solar_days_before_year(1977) == 214024);
    assert(spec_year_aligned(1977));
    assert(spec_lunar_days_before_year(1978) == 214391 && spec_solar_days_before_year(1978) == 214389);
    assert(spec_year_aligned(1978));
    assert(spec_lunar_days_before_year(1979) == 214746 && spec_solar_days_before_year(1979) == 214754);
    assert(spec_year_aligned(1979));
    assert(spec_lunar_days_before_year(1980) == 215130 && spec_solar_days_before_year(1980) == 215119);
    assert(spec_year_aligned(1980));
    assert(spec_lunar_days_before_year(1981) == 215485 && spec_solar_days_before_year(1981) == 215485);
    assert(spec_year_aligned(1981));
    assert(spec_lunar_days_before_year(1982) == 215839 && spec_solar_days_before_year(1982) == 215850);
    assert(spec_year_aligned(1982));
    assert(spec_lunar_days_before_year(1983) == 216223 && spec_solar_days_before_year(1983) == 216215);
    assert(spec_year_aligned(1983));
    assert(spec_lunar_days_before_year(1984) == 216577 && spec_solar_days_before_year(1984) == 216580);
    assert(spec_year_aligned(1984));
    assert(spec_lunar_days_before_year(1985) == 216961 && spec_solar_days_before_year(1985) == 216946);
    assert(spec_year_aligned(1985));
    assert(spec_lunar_days_before_year(1986) == 217315 && spec_solar_days_before_year(1986) == 217311);
    assert(spec_year_aligned(1986));
    assert(spec_lunar_days_before_year(1987) == 217669 && spec_solar_days_before_year(1987) == 217676);
    assert(spec_year_aligned(1987));
    assert(spec_lunar_days_before_year(1988) == 218054 && spec_solar_days_before_year(1988) == 218041);
    assert(spec_year_aligned(1988));
    assert(spec_lunar_days_before_year(1989) == 218408 && spec_solar_days_before_year(1989) == 218407);
    assert(spec_year_aligned(1989));
    assert(spec_lunar_days_before_year(1990) == 218763 && spec_solar_days_before_year(1990) == 218772);
    assert(spec_year_aligned(1990));
    if year == 1951 {
    } else if year == 1952 {
    } else if year == 1953 {
    } else if year == 1954 {
    } else if year == 1955 {
    } else if year == 1956 {
    } else if year == 1957 {
    } else if year == 1958 {
    } else if year == 1959 {
    } else if year == 1960 {
    } else if year == 1961 {
    } else if year == 1962 {
    } else if year == 1963 {
    } else if year == 1964 {
    } else if year == 1965 {
    } else if year == 1966 {
    } else if year == 1967 {
    } else if year == 1968 {
    } else if year == 1969 {
    } else if year == 1970 {
    } else if year == 1971 {
    } else if year == 1972 {
    } else if year == 1973 {
    } else if year == 1974 {
    } else if year == 1975 {
    } else if year == 1976 {
    } else if year == 1977 {
    } else if year == 1978 {
    } else if year == 1979 {
    } else if year == 1980 {
    } else if year == 1981 {
    } else if year == 1982 {
    } else if year == 1983 {
    } else if year == 1984 {
    } else if year == 1985 {
    } else if year == 1986 {
    } else if year == 1987 {
    } else if year == 1988 {
    } else if year == 1989 {
    } else if year == 1990 {
    }
}

#[verifier::spinoff_prover]
#[verifier::rlimit(50)]
proof fn lemma_span_aligned_1991(year: int)
    requires
        1991 <= year < 2031,
    ensures
        spec_year_aligned(year),
{
    lemma_day_totals_1991();
    reveal_with_fuel(spec_lunar_days_before_year, 2);
    reveal_with_fuel(spec_solar_days_before_year, 2);
    assert(spec_year_aligned(1991));
    assert(spec_lunar_days_before_year(1992) == 219501 && spec_solar_days_before_year(1992) == 219502);
    assert(spec_year_aligned(1992));
    assert(spec_lunar_days_before_year(1993) == 219855 && spec_solar_days_before_year(1993) == 219868);
    assert(spec_year_aligned(1993));
    assert(spec_lunar_days_before_year(1994) == 220238 && spec_solar_days_before_year(1994) == 220233);
    assert(spec_year_aligned(1994));
    assert(spec_lunar_days_before_year(1995) == 220593 && spec_solar_days_before_year(1995) == 220598);
    assert(spec_year_aligned(1995));
    assert(spec_lunar_days_before_year(1996) == 220977 && spec_solar_days_before_year(1996) == 220963);
    assert(spec_year_aligned(1996));
    assert(spec_lunar_days_before_year(1997) == 221332 && spec_solar_days_before_year(1997) == 221329);
    assert(spec_year_aligned(1997));
    assert(spec_lunar_days_before_year(1998) == 221686 && spec_solar_days_before_year(1998) == 221694);
    assert(spec_year_aligned(1998));
    assert(spec_lunar_days_before_year(1999) == 222070 && spec_solar_days_before_year(1999) == 222059);
    assert(spec_year_aligned(1999));
    assert(spec_lunar_days_before_year(2000) == 222424 && spec_solar_days_before_year(2000) == 222424);
    assert(spec_year_aligned(2000));
    assert(spec_lunar_days_before_year(2001) == 222778 && spec_solar_days_before_year(2001) == 222790);
    assert(spec_year_aligned(2001));
    assert(spec_lunar_days_before_year(2002) == 223162 && spec_solar_days_before_year(2002) == 223155);
    assert(spec_year_aligned(2002));
    assert(spec_lunar_days_before_year(2003) == 223516 && spec_solar_days_before_year(2003) == 223520);
    assert(spec_year_aligned(2003));
    assert(spec_lunar_days_before_year(2004) == 223871 && spec_solar_days_before_year(2004) == 223885);
    assert(spec_year_aligned(2004));
    assert(spec_lunar_days_before_year(2005) == 224255 && spec_solar_days_before_year(2005) == 224251);
    assert(spec_year_aligned(2005));
    assert(spec_lunar_days_before_year(2006) == 224609 && spec_solar_days_before_year(2006) == 224616);
    assert(spec_year_aligned(2006));
    assert(spec_lunar_days_before_year(2007) == 224994 && spec_solar_days_before_year(2007) == 224981);
    assert(spec_year_aligned(2007));
    assert(spec_lunar_days_before_year(2008) == 225348 && spec_solar_days_before_year(2008) == 225346);
    assert(spec_year_aligned(2008));
    assert(spec_lunar_days_before_year(2009) == 225702 && spec_solar_days_before_year(2009) == 225712);
    assert(spec_year_aligned(2009));
    assert(spec_lunar_days_before_year(2010) == 226086 && spec_solar_days_before_year(2010) == 226077);
    assert(spec_year_aligned(2010));
    assert(spec_lunar_days_before_year(2011) == 226440 && spec_solar_days_before_year(2011) == 226442);
    assert(spec_year_aligned(2011));
    assert(spec_lunar_days_before_year(2012) == 226794 && spec_solar_days_before_year(2012) == 226807);
    assert(spec_year_aligned(2012));
    assert(spec_lunar_days_before_year(2013) == 227178 && spec_solar_days_before_year(2013) == 227173);
    assert(spec_year_aligned(2013));
    assert(spec_lunar_days_before_year(2014) == 227533 && spec_solar_days_before_year(2014) == 227538);
    assert(spec_year_aligned(2014));
    assert(spec_lunar_days_before_year(2015) == 227917 && spec_solar_days_before_year(2015) == 227903);
    assert(spec_year_aligned(2015));
    assert(spec_lunar_days_before_year(2016) == 228271 && spec_solar_days_before_year(2016) == 228268);
    assert(spec_year_aligned(2016));
    assert(spec_lunar_days_before_year(2017) == 228626 && spec_solar_days_before_year(2017) == 228634);
    assert(spec_year_aligned(2017));
    assert(spec_lunar_days_before_year(2018) == 229010 && spec_solar_days_before_year(2018) == 228999);
    assert(spec_year_aligned(2018));
    assert(spec_lunar_days_before_year(2019) == 229364 && spec_solar_days_before_year(2019) == 229364);
    assert(spec_year_aligned(2019));
    assert(spec_lunar_days_before_year(2020) == 229718 && spec_solar_days_before_year(2020) == 229729);
    assert(spec_year_aligned(2020));
    assert(spec_lunar_days_before_year(2021) == 230102 && spec_solar_days_before_year(2021) == 230095);
    assert(spec_year_aligned(2021));
    assert(spec_lunar_days_before_year(2022) == 230456 && spec_solar_days_before_year(2022) == 230460);
    assert(spec_year_aligned(2022));
    assert(spec_lunar_days_before_year(2023) == 230811 && spec_solar_days_before_year(2023) == 230825);
    assert(spec_year_aligned(2023));
    assert(spec_lunar_days_before_year(2024) == 231195 && spec_solar_days_before_year(2024) == 231190);
    assert(spec_year_aligned(2024));
    assert(spec_lunar_days_before_year(2025) == 231549 && spec_solar_days_before_year(2025) == 231556);
    assert(spec_year_aligned(2025));
    assert(spec_lunar_days_before_year(2026) == 231933 && spec_solar_days_before_year(2026) == 231921);
    assert(spec_year_aligned(2026));
    assert(spec_lunar_days_before_year(2027) == 232288 && spec_solar_days_before_year(2027) == 232286);
    assert(spec_year_aligned(2027));
    assert(spec_lunar_days_before_year(2028) == 232642 && spec_solar_days_before_year(2028) == 232651);
    assert(spec_year_aligned(2028));
    assert(spec_lunar_days_before_year(2029) == 233025 && spec_solar_days_before_year(2029) == 233017);
    assert(spec_year_aligned(2029));
    assert(spec_lunar_days_before_year(2030) == 233380 && spec_solar_days_before_year(2030) == 233382);
    assert(spec_year_aligned(2030));
    if year == 1991 {
    } else if year == 1992 {
    } else if year == 1993 {
    } else if year == 1994 {
    } else if year == 1995 {
    } else if year == 1996 {
    } else if year == 1997 {
    } else if year == 1998 {
    } else if year == 1999 {
    } else if year == 2000 {
    } else if year == 2001 {
    } else if year == 2002 {
    } else if year == 2003 {
    } else if year == 2004 {
    } else if year == 2005 {
    } else if year == 2006 {
    } else if year == 2007 {
    } else if year == 2008 {
    } else if year == 2009 {
    } else if year == 2010 {
    } else if year == 2011 {
    } else if year == 2012 {
    } else if year == 2013 {
    } else if year == 2014 {
    } else if year == 2015 {
    } else if year == 2016 {
    } else if year == 2017 {
    } else if year == 2018 {
    } else if year == 2019 {
    } else if year == 2020 {
    } else if year == 2021 {
    } else if year == 2022 {
    } else if year == 2023 {
    } else if year == 2024 {
    } else if year == 2025 {
    } else if year == 2026 {
    } else if year == 2027 {
    } else if year == 2028 {
    } else if year == 2029 {
    } else if year == 2030 {
    }
}

#[verifier::spinoff_prover]
#[verifier::rlimit(50)]
proof fn lemma_span_aligned_2031(year: int)
    requires
        2031 <= year < 2051,
    ensures
        spec_year_aligned(year),
{
    lemma_day_totals_2031();
    reveal_with_fuel(spec_lunar_days_before_year, 2);
    reveal_with_fuel(spec_solar_days_before_year, 2);
    assert(spec_year_aligned(2031));
    assert(spec_lunar_days_before_year(2032) == 234118 && spec_solar_days_before_year(2032) == 234112);
    assert(spec_year_aligned(2032));
    assert(spec_lunar_days_before_year(2033) == 234473 && spec_solar_days_before_year(2033) == 234478);
    assert(spec_year_aligned(2033));
    assert(spec_lunar_days_before_year(2034) == 234857 && spec_solar_days_before_year(2034) == 234843);
    assert(spec_year_aligned(2034));
    assert(spec_lunar_days_before_year(2035) == 235211 && spec_solar_days_before_year(2035) == 235208);
    assert(spec_year_aligned(2035));
    assert(spec_lunar_days_before_year(2036) == 235565 && spec_solar_days_before_year(2036) == 235573);
    assert(spec_year_aligned(2036));
    assert(spec_lunar_days_before_year(2037) == 235949 && spec_solar_days_before_year(2037) == 235939);
    assert(spec_year_aligned(2037));
    assert(spec_lunar_days_before_year(2038) == 236303 && spec_solar_days_before_year(2038) == 236304);
    assert(spec_year_aligned(2038));
    assert(spec_lunar_days_before_year(2039) == 236657 && spec_solar_days_before_year(2039) == 236669);
    assert(spec_year_aligned(2039));
    assert(spec_lunar_days_before_year(2040) == 237041 && spec_solar_days_before_year(2040) == 237034);
    assert(spec_year_aligned(2040));
    assert(spec_lunar_days_before_year(2041) == 237396 && spec_solar_days_before_year(2041) == 237400);
    assert(spec_year_aligned(2041));
    assert(spec_lunar_days_before_year(2042) == 237751 && spec_solar_days_before_year(2042) == 237765);
    assert(spec_year_aligned(2042));
    assert(spec_lunar_days_before_year(2043) == 238135 && spec_solar_days_before_year(2043) == 238130);
    assert(spec_year_aligned(2043));
    assert(spec_lunar_days_before_year(2044) == 238489 && spec_solar_days_before_year(2044) == 238495);
    assert(spec_year_aligned(2044));
    assert(spec_lunar_days_before_year(2045) == 238873 && spec_solar_days_before_year(2045) == 238861);
    assert(spec_year_aligned(2045));
    assert(spec_lunar_days_before_year(2046) == 239227 && spec_solar_days_before_year(2046) == 239226);
    assert(spec_year_aligned(2046));
    assert(spec_lunar_days_before_year(2047) == 239581 && spec_solar_days_before_year(2047) == 239591);
    assert(spec_year_aligned(2047));
    assert(spec_lunar_days_before_year(2048) == 239965 && spec_solar_days_before_year(2048) == 239956);
    assert(spec_year_aligned(2048));
    assert(spec_lunar_days_before_year(2049) == 240319 && spec_solar_days_before_year(2049) == 240322);
    assert(spec_year_aligned(2049));
    assert(spec_lunar_days_before_year(2050) == 240674 && spec_solar_days_before_year(2050) == 240687);
    assert(spec_year_aligned(2050));
    if year == 2031 {
    } else if year == 2032 {
    } else if year == 2033 {
    } else if year == 2034 {
    } else if year == 2035 {
    } else if year == 2036 {
    } else if year == 2037 {
    } else if year == 2038 {
    } else if year == 2039 {
    } else if year == 2040 {
    } else if year == 2041 {
    } else if year == 2042 {
    } else if year == 2043 {
    } else if year == 2044 {
    } else if year == 2045 {
    } else if year == 2046 {
    } else if year == 2047 {
    } else if year == 2048 {
    } else if year == 2049 {
    } else if year == 2050 {
    }
}

/// Every covered year meets the alignment facts of the table.
pub proof fn lemma_year_aligned(year: int)
    requires
        1391 <= year <= 2050,
    ensures
        spec_year_aligned(year),
{
    if year < 1431 {
        lemma_span_aligned_1391(year);
    } else if year < 1471 {
        lemma_span_aligned_1431(year);
    } else if year < 1511 {
        lemma_span_aligned_1471(year);
    } else if year < 1551 {
        lemma_span_aligned_1511(year);
    } else if year < 1591 {
        lemma_span_aligned_1551(year);
    } else if year < 1631 {
        lemma_span_aligned_1591(year);
    } else if year < 1671 {
        lemma_span_aligned_1631(year);
    } else if year < 1711 {
        lemma_span_aligned_1671(year);
    } else if year < 1751 {
        lemma_span_aligned_1711(year);
    } else if year < 1791 {
        lemma_span_aligned_1751(year);
    } else if year < 1831 {
        lemma_span_aligned_1791(year);
    } else if year < 1871 {
        lemma_span_aligned_1831(year);
    } else if year < 1911 {
        lemma_span_aligned_1871(year);
    } else if year < 1951 {
        lemma_span_aligned_1911(year);
    } else if year < 1991 {
        lemma_span_aligned_1951(year);
    } else if year < 2031 {
        lemma_span_aligned_1991(year);
    } else if year < 2051 {
        lemma_span_aligned_2031(year);
    }
}

/// Day totals where the table ends.
pub proof fn lemma_table_end_totals()
    ensures
        spec_lunar_days_before_year(2051) == 241058,
        spec_solar_days_before_year(2051) == 241052,
{
    lemma_day_totals_2051();
}

/// Every covered lunar year has a table word.
pub proof fn lemma_year_word_nonzero(year: int)
    requires
        1391 <= year <= 2050,
    ensures
        spec_lunar_word(year) != 0u32,
{
    lemma_year_aligned(year);
}

/// The civil new year of a year does not fall after the lunar new year of
/// the same year number.
pub proof fn lemma_solar_new_year_not_after_lunar(year: int)
    requires
        1391 <= year <= 2051,
    ensures
        spec_solar_days_before_year(year) - 35 <= spec_lunar_days_before_year(year),
{
    if year == 2051 {
        lemma_table_end_totals();
    } else {
        lemma_year_aligned(year);
    }
}

/// The lunar new year of a year falls before the civil new year that
/// follows it.
pub proof fn lemma_lunar_new_year_before_next_solar(year: int)
    requires
        1391 <= year <= 2050,
    ensures
        spec_lunar_days_before_year(year) + 35 <= spec_solar_days_before_year(year + 1),
{
    lemma_year_aligned(year);
}

} // verus!
