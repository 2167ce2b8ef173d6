//! The applications that the table of known applications names in words,
//! each with its package.
use vstd::prelude::*;
use crate::knowledge::{knowledge_table, named_group_1, named_group_2, named_group_3, named_group_4, named_group_5, numbered_name, numbered_package, with_numbered};

verus! {

/// Adding numbered applications leaves every name that does not begin with
/// `ap` as it was.
proof fn lemma_with_numbered_keeps(m: Map<Seq<char>, Seq<char>>, n: nat, k: Seq<char>)
    requires
        k.len() < 2 || k[0] != 'a' || k[1] != 'p',
    ensures
        with_numbered(m, n).contains_key(k) == m.contains_key(k),
        with_numbered(m, n)[k] == m[k],
    decreases n,
{
    if n > 0 {
        lemma_with_numbered_keeps(m, (n - 1) as nat, k);
        reveal_strlit("app_");
        let name = numbered_name(n);
        assert(name[0] == 'a' && name[1] == 'p');
        assert(name != k);
    }
}

/// A name shares its first two and its last letter with a name of the first group.
spec fn shaped_like_group_1(k: Seq<char>) -> bool {
    ||| (k[0] == 'т' && k[1] == 'е' && k.last() == 'м')
    ||| (k[0] == 't' && k[1] == 'e' && k.last() == 'm')
    ||| (k[0] == 'б' && k[1] == 'р' && k.last() == 'р')
    ||| (k[0] == 'f' && k[1] == 'i' && k.last() == 'x')
    ||| (k[0] == 'к' && k[1] == 'а' && k.last() == 'р')
    ||| (k[0] == 'т' && k[1] == 'е' && k.last() == 'л')
    ||| (k[0] == 'a' && k[1] == 'l' && k.last() == 'y')
    ||| (k[0] == 'ф' && k[1] == 'а' && k.last() == 'р')
    ||| (k[0] == 'п' && k[1] == 'р' && k.last() == 'к')
    ||| (k[0] == 'р' && k[1] == 'е' && k.last() == 'р')
    ||| (k[0] == 'б' && k[1] == 'л' && k.last() == 'т')
    ||| (k[0] == 'к' && k[1] == 'о' && k.last() == 'д')
    ||| (k[0] == 'v' && k[1] == 's' && k.last() == 'e')
    ||| (k[0] == 'д' && k[1] == 'и' && k.last() == 'д')
    ||| (k[0] == 'd' && k[1] == 'i' && k.last() == 'd')
    ||| (k[0] == 'с' && k[1] == 'п' && k.last() == 'й')
    ||| (k[0] == 's' && k[1] == 'p' && k.last() == 'y')
    ||| (k[0] == 'в' && k[1] == 'и' && k.last() == 'р')
    ||| (k[0] == 'm' && k[1] == 'p' && k.last() == 'v')
    ||| (k[0] == 'а' && k[1] == 'у' && k.last() == 'р')
    ||| (k[0] == 'о' && k[1] == 'б' && k.last() == 'а')
    ||| (k[0] == 'а' && k[1] == 'р' && k.last() == 'р')
    ||| (k[0] == 'с' && k[1] == 'к' && k.last() == 'т')
    ||| (k[0] == 'f' && k[1] == 'l' && k.last() == 't')
    ||| (k[0] == 'з' && k[1] == 'а' && k.last() == 'а')
}

/// The names of the first group, with their packages, over any table.
proof fn lemma_group_1_entries(m: Map<Seq<char>, Seq<char>>)
    ensures
        named_group_1(m).contains_key("телеграм"@) && named_group_1(m)["телеграм"@] == "telegram-desktop"@,
        named_group_1(m).contains_key("telegram"@) && named_group_1(m)["telegram"@] == "telegram-desktop"@,
        named_group_1(m).contains_key("браузер"@) && named_group_1(m)["браузер"@] == "firefox"@,
        named_group_1(m).contains_key("firefox"@) && named_group_1(m)["firefox"@] == "firefox"@,
        named_group_1(m).contains_key("калькулятор"@) && named_group_1(m)["калькулятор"@] == "gnome-calculator"@,
        named_group_1(m).contains_key("терминал"@) && named_group_1(m)["терминал"@] == "alacritty"@,
        named_group_1(m).contains_key("alacritty"@) && named_group_1(m)["alacritty"@] == "alacritty"@,
        named_group_1(m).contains_key("файловый менеджер"@) && named_group_1(m)["файловый менеджер"@] == "thunar"@,
        named_group_1(m).contains_key("проводник"@) && named_group_1(m)["проводник"@] == "thunar"@,
        named_group_1(m).contains_key("редактор"@) && named_group_1(m)["редактор"@] == "gedit"@,
        named_group_1(m).contains_key("блокнот"@) && named_group_1(m)["блокнот"@] == "gedit"@,
        named_group_1(m).contains_key("код"@) && named_group_1(m)["код"@] == "visual-studio-code-bin"@,
        named_group_1(m).contains_key("vscode"@) && named_group_1(m)["vscode"@] == "visual-studio-code-bin"@,
        named_group_1(m).contains_key("дискорд"@) && named_group_1(m)["дискорд"@] == "discord"@,
        named_group_1(m).contains_key("discord"@) && named_group_1(m)["discord"@] == "discord"@,
        named_group_1(m).contains_key("спотифай"@) && named_group_1(m)["спотифай"@] == "spotify"@,
        named_group_1(m).contains_key("spotify"@) && named_group_1(m)["spotify"@] == "spotify"@,
        named_group_1(m).contains_key("видеоплеер"@) && named_group_1(m)["видеоплеер"@] == "mpv"@,
        named_group_1(m).contains_key("mpv"@) && named_group_1(m)["mpv"@] == "mpv"@,
        named_group_1(m).contains_key("аудиоплеер"@) && named_group_1(m)["аудиоплеер"@] == "audacious"@,
        named_group_1(m).contains_key("образ диска"@) && named_group_1(m)["образ диска"@] == "balena-etcher"@,
        named_group_1(m).contains_key("архиватор"@) && named_group_1(m)["архиватор"@] == "file-roller"@,
        named_group_1(m).contains_key("скриншот"@) && named_group_1(m)["скриншот"@] == "flameshot"@,
        named_group_1(m).contains_key("flameshot"@) && named_group_1(m)["flameshot"@] == "flameshot"@,
        named_group_1(m).contains_key("запись экрана"@) && named_group_1(m)["запись экрана"@] == "obs-studio"@,
{
    reveal_strlit("телеграм");
    assert("телеграм"@[0] == 'т' && "телеграм"@[1] == 'е' && "телеграм"@.last() == 'м');
    reveal_strlit("telegram");
    assert("telegram"@[0] == 't' && "telegram"@[1] == 'e' && "telegram"@.last() == 'm');
    reveal_strlit("браузер");
    assert("браузер"@[0] == 'б' && "браузер"@[1] == 'р' && "браузер"@.last() == 'р');
    reveal_strlit("firefox");
    assert("firefox"@[0] == 'f' && "firefox"@[1] == 'i' && "firefox"@.last() == 'x');
    reveal_strlit("калькулятор");
    assert("калькулятор"@[0] == 'к' && "калькулятор"@[1] == 'а' && "калькулятор"@.last() == 'р');
    reveal_strlit("терминал");
    assert("терминал"@[0] == 'т' && "терминал"@[1] == 'е' && "терминал"@.last() == 'л');
    reveal_strlit("alacritty");
    assert("alacritty"@[0] == 'a' && "alacritty"@[1] == 'l' && "alacritty"@.last() == 'y');
    reveal_strlit("файловый менеджер");
    assert("файловый менеджер"@[0] == 'ф' && "файловый менеджер"@[1] == 'а' && "файловый менеджер"@.last() == 'р');
    reveal_strlit("проводник");
    assert("проводник"@[0] == 'п' && "проводник"@[1] == 'р' && "проводник"@.last() == 'к');
    reveal_strlit("редактор");
    assert("редактор"@[0] == 'р' && "редактор"@[1] == 'е' && "редактор"@.last() == 'р');
    reveal_strlit("блокнот");
    assert("блокнот"@[0] == 'б' && "блокнот"@[1] == 'л' && "блокнот"@.last() == 'т');
    reveal_strlit("код");
    assert("код"@[0] == 'к' && "код"@[1] == 'о' && "код"@.last() == 'д');
    reveal_strlit("vscode");
    assert("vscode"@[0] == 'v' && "vscode"@[1] == 's' && "vscode"@.last() == 'e');
    reveal_strlit("дискорд");
    assert("дискорд"@[0] == 'д' && "дискорд"@[1] == 'и' && "дискорд"@.last() == 'д');
    reveal_strlit("discord");
    assert("discord"@[0] == 'd' && "discord"@[1] == 'i' && "discord"@.last() == 'd');
    reveal_strlit("спотифай");
    assert("спотифай"@[0] == 'с' && "спотифай"@[1] == 'п' && "спотифай"@.last() == 'й');
    reveal_strlit("spotify");
    assert("spotify"@[0] == 's' && "spotify"@[1] == 'p' && "spotify"@.last() == 'y');
    reveal_strlit("видеоплеер");
    assert("видеоплеер"@[0] == 'в' && "видеоплеер"@[1] == 'и' && "видеоплеер"@.last() == 'р');
    reveal_strlit("mpv");
    assert("mpv"@[0] == 'm' && "mpv"@[1] == 'p' && "mpv"@.last() == 'v');
    reveal_strlit("аудиоплеер");
    assert("аудиоплеер"@[0] == 'а' && "аудиоплеер"@[1] == 'у' && "аудиоплеер"@.last() == 'р');
    reveal_strlit("образ диска");
    assert("образ диска"@[0] == 'о' && "образ диска"@[1] == 'б' && "образ диска"@.last() == 'а');
    reveal_strlit("архиватор");
    assert("архиватор"@[0] == 'а' && "архиватор"@[1] == 'р' && "архиватор"@.last() == 'р');
    reveal_strlit("скриншот");
    assert("скриншот"@[0] == 'с' && "скриншот"@[1] == 'к' && "скриншот"@.last() == 'т');
    reveal_strlit("flameshot");
    assert("flameshot"@[0] == 'f' && "flameshot"@[1] == 'l' && "flameshot"@.last() == 't');
    reveal_strlit("запись экрана");
    assert("запись экрана"@[0] == 'з' && "запись экрана"@[1] == 'а' && "запись экрана"@.last() == 'а');
}

/// The first group leaves every other name as it was.
proof fn lemma_group_1_keeps(m: Map<Seq<char>, Seq<char>>, k: Seq<char>)
    requires
        k.len() >= 2,
        !shaped_like_group_1(k),
    ensures
        named_group_1(m).contains_key(k) == m.contains_key(k),
        named_group_1(m)[k] == m[k],
{
    reveal_strlit("телеграм");
    assert("телеграм"@[0] == 'т' && "телеграм"@[1] == 'е' && "телеграм"@.last() == 'м');
    reveal_strlit("telegram");
    assert("telegram"@[0] == 't' && "telegram"@[1] == 'e' && "telegram"@.last() == 'm');
    reveal_strlit("браузер");
    assert("браузер"@[0] == 'б' && "браузер"@[1] == 'р' && "браузер"@.last() == 'р');
    reveal_strlit("firefox");
    assert("firefox"@[0] == 'f' && "firefox"@[1] == 'i' && "firefox"@.last() == 'x');
    reveal_strlit("калькулятор");
    assert("калькулятор"@[0] == 'к' && "калькулятор"@[1] == 'а' && "калькулятор"@.last() == 'р');
    reveal_strlit("терминал");
    assert("терминал"@[0] == 'т' && "терминал"@[1] == 'е' && "терминал"@.last() == 'л');
    reveal_strlit("alacritty");
    assert("alacritty"@[0] == 'a' && "alacritty"@[1] == 'l' && "alacritty"@.last() == 'y');
    reveal_strlit("файловый менеджер");
    assert("файловый менеджер"@[0] == 'ф' && "файловый менеджер"@[1] == 'а' && "файловый менеджер"@.last() == 'р');
    reveal_strlit("проводник");
    assert("проводник"@[0] == 'п' && "проводник"@[1] == 'р' && "проводник"@.last() == 'к');
    reveal_strlit("редактор");
    assert("редактор"@[0] == 'р' && "редактор"@[1] == 'е' && "редактор"@.last() == 'р');
    reveal_strlit("блокнот");
    assert("блокнот"@[0] == 'б' && "блокнот"@[1] == 'л' && "блокнот"@.last() == 'т');
    reveal_strlit("код");
    assert("код"@[0] == 'к' && "код"@[1] == 'о' && "код"@.last() == 'д');
    reveal_strlit("vscode");
    assert("vscode"@[0] == 'v' && "vscode"@[1] == 's' && "vscode"@.last() == 'e');
    reveal_strlit("дискорд");
    assert("дискорд"@[0] == 'д' && "дискорд"@[1] == 'и' && "дискорд"@.last() == 'д');
    reveal_strlit("discord");
    assert("discord"@[0] == 'd' && "discord"@[1] == 'i' && "discord"@.last() == 'd');
    reveal_strlit("спотифай");
    assert("спотифай"@[0] == 'с' && "спотифай"@[1] == 'п' && "спотифай"@.last() == 'й');
    reveal_strlit("spotify");
    assert("spotify"@[0] == 's' && "spotify"@[1] == 'p' && "spotify"@.last() == 'y');
    reveal_strlit("видеоплеер");
    assert("видеоплеер"@[0] == 'в' && "видеоплеер"@[1] == 'и' && "видеоплеер"@.last() == 'р');
    reveal_strlit("mpv");
    assert("mpv"@[0] == 'm' && "mpv"@[1] == 'p' && "mpv"@.last() == 'v');
    reveal_strlit("аудиоплеер");
    assert("аудиоплеер"@[0] == 'а' && "аудиоплеер"@[1] == 'у' && "аудиоплеер"@.last() == 'р');
    reveal_strlit("образ диска");
    assert("образ диска"@[0] == 'о' && "образ диска"@[1] == 'б' && "образ диска"@.last() == 'а');
    reveal_strlit("архиватор");
    assert("архиватор"@[0] == 'а' && "архиватор"@[1] == 'р' && "архиватор"@.last() == 'р');
    reveal_strlit("скриншот");
    assert("скриншот"@[0] == 'с' && "скриншот"@[1] == 'к' && "скриншот"@.last() == 'т');
    reveal_strlit("flameshot");
    assert("flameshot"@[0] == 'f' && "flameshot"@[1] == 'l' && "flameshot"@.last() == 't');
    reveal_strlit("запись экрана");
    assert("запись экрана"@[0] == 'з' && "запись экрана"@[1] == 'а' && "запись экрана"@.last() == 'а');
}

/// A name shares its first two and its last letter with a name of the second group.
spec fn shaped_like_group_2(k: Seq<char>) -> bool {
    ||| (k[0] == 'o' && k[1] == 'b' && k.last() == 's')
    ||| (k[0] == 'г' && k[1] == 'и' && k.last() == 'т')
    ||| (k[0] == 'g' && k[1] == 'i' && k.last() == 't')
    ||| (k[0] == 'д' && k[1] == 'о' && k.last() == 'р')
    ||| (k[0] == 'd' && k[1] == 'o' && k.last() == 'r')
    ||| (k[0] == 'к' && k[1] == 'о' && k.last() == 'с')
    ||| (k[0] == 'о' && k[1] == 'ф' && k.last() == 'с')
    ||| (k[0] == 'п' && k[1] == 'о' && k.last() == 'а')
    ||| (k[0] == 't' && k[1] == 'h' && k.last() == 'd')
    ||| (k[0] == 'т' && k[1] == 'о' && k.last() == 'т')
    ||| (k[0] == 'q' && k[1] == 'b' && k.last() == 't')
    ||| (k[0] == 's' && k[1] == 't' && k.last() == 'm')
    ||| (k[0] == 'с' && k[1] == 'т' && k.last() == 'м')
    ||| (k[0] == 'р' && k[1] == 'и' && k.last() == 'е')
    ||| (k[0] == 'g' && k[1] == 'i' && k.last() == 'p')
    ||| (k[0] == 'и' && k[1] == 'н' && k.last() == 'п')
    ||| (k[0] == 'б' && k[1] == 'л' && k.last() == 'и')
    ||| (k[0] == 'б' && k[1] == 'л' && k.last() == 'з')
    ||| (k[0] == 'п' && k[1] == 'р' && k.last() == 'р')
    ||| (k[0] == 'в' && k[1] == 'и' && k.last() == 'а')
    ||| (k[0] == 'v' && k[1] == 'i' && k.last() == 'x')
    ||| (k[0] == 'н' && k[1] == 'о' && k.last() == 'с')
    ||| (k[0] == 'ч' && k[1] == 'а' && k.last() == 'т')
    ||| (k[0] == 'м' && k[1] == 'а' && k.last() == 'а')
    ||| (k[0] == 'э' && k[1] == 'л' && k.last() == 'т')
}

/// The names of the second group, with their packages, over any table.
proof fn lemma_group_2_entries(m: Map<Seq<char>, Seq<char>>)
    ensures
        named_group_2(m).contains_key("obs"@) && named_group_2(m)["obs"@] == "obs-studio"@,
        named_group_2(m).contains_key("гит"@) && named_group_2(m)["гит"@] == "git"@,
        named_group_2(m).contains_key("git"@) && named_group_2(m)["git"@] == "git"@,
        named_group_2(m).contains_key("докер"@) && named_group_2(m)["докер"@] == "docker"@,
        named_group_2(m).contains_key("docker"@) && named_group_2(m)["docker"@] == "docker"@,
        named_group_2(m).contains_key("компас"@) && named_group_2(m)["компас"@] == "libreoffice"@,
        named_group_2(m).contains_key("офис"@) && named_group_2(m)["офис"@] == "libreoffice-fresh"@,
        named_group_2(m).contains_key("почта"@) && named_group_2(m)["почта"@] == "thunderbird"@,
        named_group_2(m).contains_key("thunderbird"@) && named_group_2(m)["thunderbird"@] == "thunderbird"@,
        named_group_2(m).contains_key("торрент"@) && named_group_2(m)["торрент"@] == "qbittorrent"@,
        named_group_2(m).contains_key("qbittorrent"@) && named_group_2(m)["qbittorrent"@] == "qbittorrent"@,
        named_group_2(m).contains_key("steam"@) && named_group_2(m)["steam"@] == "steam"@,
        named_group_2(m).contains_key("стим"@) && named_group_2(m)["стим"@] == "steam"@,
        named_group_2(m).contains_key("рисование"@) && named_group_2(m)["рисование"@] == "gimp"@,
        named_group_2(m).contains_key("gimp"@) && named_group_2(m)["gimp"@] == "gimp"@,
        named_group_2(m).contains_key("инкскейп"@) && named_group_2(m)["инкскейп"@] == "inkscape"@,
        named_group_2(m).contains_key("блюпури"@) && named_group_2(m)["блюпури"@] == "blueman"@,
        named_group_2(m).contains_key("блютуз"@) && named_group_2(m)["блютуз"@] == "blueman"@,
        named_group_2(m).contains_key("принтер"@) && named_group_2(m)["принтер"@] == "system-config-printer"@,
        named_group_2(m).contains_key("виртуалка"@) && named_group_2(m)["виртуалка"@] == "virt-manager"@,
        named_group_2(m).contains_key("virtualbox"@) && named_group_2(m)["virtualbox"@] == "virtualbox"@,
        named_group_2(m).contains_key("номус"@) && named_group_2(m)["номус"@] == "qemu-desktop"@,
        named_group_2(m).contains_key("чат"@) && named_group_2(m)["чат"@] == "pidgin"@,
        named_group_2(m).contains_key("матрица"@) && named_group_2(m)["матрица"@] == "element-desktop"@,
        named_group_2(m).contains_key("элемент"@) && named_group_2(m)["элемент"@] == "element-desktop"@,
{
    reveal_strlit("obs");
    assert("obs"@[0] == 'o' && "obs"@[1] == 'b' && "obs"@.last() == 's');
    reveal_strlit("гит");
    assert("гит"@[0] == 'г' && "гит"@[1] == 'и' && "гит"@.last() == 'т');
    reveal_strlit("git");
    assert("git"@[0] == 'g' && "git"@[1] == 'i' && "git"@.last() == 't');
    reveal_strlit("докер");
    assert("докер"@[0] == 'д' && "докер"@[1] == 'о' && "докер"@.last() == 'р');
    reveal_strlit("docker");
    assert("docker"@[0] == 'd' && "docker"@[1] == 'o' && "docker"@.last() == 'r');
    reveal_strlit("компас");
    assert("компас"@[0] == 'к' && "компас"@[1] == 'о' && "компас"@.last() == 'с');
    reveal_strlit("офис");
    assert("офис"@[0] == 'о' && "офис"@[1] == 'ф' && "офис"@.last() == 'с');
    reveal_strlit("почта");
    assert("почта"@[0] == 'п' && "почта"@[1] == 'о' && "почта"@.last() == 'а');
    reveal_strlit("thunderbird");
    assert("thunderbird"@[0] == 't' && "thunderbird"@[1] == 'h' && "thunderbird"@.last() == 'd');
    reveal_strlit("торрент");
    assert("торрент"@[0] == 'т' && "торрент"@[1] == 'о' && "торрент"@.last() == 'т');
    reveal_strlit("qbittorrent");
    assert("qbittorrent"@[0] == 'q' && "qbittorrent"@[1] == 'b' && "qbittorrent"@.last() == 't');
    reveal_strlit("steam");
    assert("steam"@[0] == 's' && "steam"@[1] == 't' && "steam"@.last() == 'm');
    reveal_strlit("стим");
    assert("стим"@[0] == 'с' && "стим"@[1] == 'т' && "стим"@.last() == 'м');
    reveal_strlit("рисование");
    assert("рисование"@[0] == 'р' && "рисование"@[1] == 'и' && "рисование"@.last() == 'е');
    reveal_strlit("gimp");
    assert("gimp"@[0] == 'g' && "gimp"@[1] == 'i' && "gimp"@.last() == 'p');
    reveal_strlit("инкскейп");
    assert("инкскейп"@[0] == 'и' && "инкскейп"@[1] == 'н' && "инкскейп"@.last() == 'п');
    reveal_strlit("блюпури");
    assert("блюпури"@[0] == 'б' && "блюпури"@[1] == 'л' && "блюпури"@.last() == 'и');
    reveal_strlit("блютуз");
    assert("блютуз"@[0] == 'б' && "блютуз"@[1] == 'л' && "блютуз"@.last() == 'з');
    reveal_strlit("принтер");
    assert("принтер"@[0] == 'п' && "принтер"@[1] == 'р' && "принтер"@.last() == 'р');
    reveal_strlit("виртуалка");
    assert("виртуалка"@[0] == 'в' && "виртуалка"@[1] == 'и' && "виртуалка"@.last() == 'а');
    reveal_strlit("virtualbox");
    assert("virtualbox"@[0] == 'v' && "virtualbox"@[1] == 'i' && "virtualbox"@.last() == 'x');
    reveal_strlit("номус");
    assert("номус"@[0] == 'н' && "номус"@[1] == 'о' && "номус"@.last() == 'с');
    reveal_strlit("чат");
    assert("чат"@[0] == 'ч' && "чат"@[1] == 'а' && "чат"@.last() == 'т');
    reveal_strlit("матрица");
    assert("матрица"@[0] == 'м' && "матрица"@[1] == 'а' && "матрица"@.last() == 'а');
    reveal_strlit("элемент");
    assert("элемент"@[0] == 'э' && "элемент"@[1] == 'л' && "элемент"@.last() == 'т');
}

/// The second group leaves every other name as it was.
proof fn lemma_group_2_keeps(m: Map<Seq<char>, Seq<char>>, k: Seq<char>)
    requires
        k.len() >= 2,
        !shaped_like_group_2(k),
    ensures
        named_group_2(m).contains_key(k) == m.contains_key(k),
        named_group_2(m)[k] == m[k],
{
    reveal_strlit("obs");
    assert("obs"@[0] == 'o' && "obs"@[1] == 'b' && "obs"@.last() == 's');
    reveal_strlit("гит");
    assert("гит"@[0] == 'г' && "гит"@[1] == 'и' && "гит"@.last() == 'т');
    reveal_strlit("git");
    assert("git"@[0] == 'g' && "git"@[1] == 'i' && "git"@.last() == 't');
    reveal_strlit("докер");
    assert("докер"@[0] == 'д' && "докер"@[1] == 'о' && "докер"@.last() == 'р');
    reveal_strlit("docker");
    assert("docker"@[0] == 'd' && "docker"@[1] == 'o' && "docker"@.last() == 'r');
    reveal_strlit("компас");
    assert("компас"@[0] == 'к' && "компас"@[1] == 'о' && "компас"@.last() == 'с');
    reveal_strlit("офис");
    assert("офис"@[0] == 'о' && "офис"@[1] == 'ф' && "офис"@.last() == 'с');
    reveal_strlit("почта");
    assert("почта"@[0] == 'п' && "почта"@[1] == 'о' && "почта"@.last() == 'а');
    reveal_strlit("thunderbird");
    assert("thunderbird"@[0] == 't' && "thunderbird"@[1] == 'h' && "thunderbird"@.last() == 'd');
    reveal_strlit("торрент");
    assert("торрент"@[0] == 'т' && "торрент"@[1] == 'о' && "торрент"@.last() == 'т');
    reveal_strlit("qbittorrent");
    assert("qbittorrent"@[0] == 'q' && "qbittorrent"@[1] == 'b' && "qbittorrent"@.last() == 't');
    reveal_strlit("steam");
    assert("steam"@[0] == 's' && "steam"@[1] == 't' && "steam"@.last() == 'm');
    reveal_strlit("стим");
    assert("стим"@[0] == 'с' && "стим"@[1] == 'т' && "стим"@.last() == 'м');
    reveal_strlit("рисование");
    assert("рисование"@[0] == 'р' && "рисование"@[1] == 'и' && "рисование"@.last() == 'е');
    reveal_strlit("gimp");
    assert("gimp"@[0] == 'g' && "gimp"@[1] == 'i' && "gimp"@.last() == 'p');
    reveal_strlit("инкскейп");
    assert("инкскейп"@[0] == 'и' && "инкскейп"@[1] == 'н' && "инкскейп"@.last() == 'п');
    reveal_strlit("блюпури");
    assert("блюпури"@[0] == 'б' && "блюпури"@[1] == 'л' && "блюпури"@.last() == 'и');
    reveal_strlit("блютуз");
    assert("блютуз"@[0] == 'б' && "блютуз"@[1] == 'л' && "блютуз"@.last() == 'з');
    reveal_strlit("принтер");
    assert("принтер"@[0] == 'п' && "принтер"@[1] == 'р' && "принтер"@.last() == 'р');
    reveal_strlit("виртуалка");
    assert("виртуалка"@[0] == 'в' && "виртуалка"@[1] == 'и' && "виртуалка"@.last() == 'а');
    reveal_strlit("virtualbox");
    assert("virtualbox"@[0] == 'v' && "virtualbox"@[1] == 'i' && "virtualbox"@.last() == 'x');
    reveal_strlit("номус");
    assert("номус"@[0] == 'н' && "номус"@[1] == 'о' && "номус"@.last() == 'с');
    reveal_strlit("чат");
    assert("чат"@[0] == 'ч' && "чат"@[1] == 'а' && "чат"@.last() == 'т');
    reveal_strlit("матрица");
    assert("матрица"@[0] == 'м' && "матрица"@[1] == 'а' && "матрица"@.last() == 'а');
    reveal_strlit("элемент");
    assert("элемент"@[0] == 'э' && "элемент"@[1] == 'л' && "элемент"@.last() == 'т');
}

/// A name shares its first two and its last letter with a name of the third group.
spec fn shaped_like_group_3(k: Seq<char>) -> bool {
    ||| (k[0] == 'с' && k[1] == 'и' && k.last() == 'а')
    ||| (k[0] == 'м' && k[1] == 'о' && k.last() == 'р')
    ||| (k[0] == 'h' && k[1] == 't' && k.last() == 'p')
    ||| (k[0] == 'н' && k[1] == 'е' && k.last() == 'ь')
    ||| (k[0] == 'o' && k[1] == 'l' && k.last() == 'a')
    ||| (k[0] == 'b' && k[1] == 'l' && k.last() == 'r')
    ||| (k[0] == 'б' && k[1] == 'л' && k.last() == 'р')
    ||| (k[0] == 'k' && k[1] == 'r' && k.last() == 'a')
    ||| (k[0] == 'к' && k[1] == 'р' && k.last() == 'а')
    ||| (k[0] == 'd' && k[1] == 'a' && k.last() == 'e')
    ||| (k[0] == 'т' && k[1] == 'е' && k.last() == 'а')
    ||| (k[0] == 'r' && k[1] == 'h' && k.last() == 'x')
    ||| (k[0] == 'р' && k[1] == 'и' && k.last() == 'с')
    ||| (k[0] == 'v' && k[1] == 'l' && k.last() == 'c')
    ||| (k[0] == 'в' && k[1] == 'э' && k.last() == 'и')
    ||| (k[0] == 'e' && k[1] == 'v' && k.last() == 'e')
    ||| (k[0] == 'п' && k[1] == 'д' && k.last() == 'ф')
    ||| (k[0] == 'g' && k[1] == 'p' && k.last() == 'd')
    ||| (k[0] == 'р' && k[1] == 'а' && k.last() == 'а')
    ||| (k[0] == 'g' && k[1] == 'n' && k.last() == 's')
    ||| (k[0] == 'д' && k[1] == 'и' && k.last() == 'и')
}

/// The names of the third group, with their packages, over any table.
proof fn lemma_group_3_entries(m: Map<Seq<char>, Seq<char>>)
    ensures
        named_group_3(m).contains_key("система"@) && named_group_3(m)["система"@] == "gnome-system-monitor"@,
        named_group_3(m).contains_key("монитор"@) && named_group_3(m)["монитор"@] == "htop"@,
        named_group_3(m).contains_key("htop"@) && named_group_3(m)["htop"@] == "htop"@,
        named_group_3(m).contains_key("нейросеть"@) && named_group_3(m)["нейросеть"@] == "ollama"@,
        named_group_3(m).contains_key("ollama"@) && named_group_3(m)["ollama"@] == "ollama"@,
        named_group_3(m).contains_key("blender"@) && named_group_3(m)["blender"@] == "blender"@,
        named_group_3(m).contains_key("блендер"@) && named_group_3(m)["блендер"@] == "blender"@,
        named_group_3(m).contains_key("krita"@) && named_group_3(m)["krita"@] == "krita"@,
        named_group_3(m).contains_key("крита"@) && named_group_3(m)["крита"@] == "krita"@,
        named_group_3(m).contains_key("darktable"@) && named_group_3(m)["darktable"@] == "darktable"@,
        named_group_3(m).contains_key("темная комната"@) && named_group_3(m)["темная комната"@] == "darktable"@,
        named_group_3(m).contains_key("rhythmbox"@) && named_group_3(m)["rhythmbox"@] == "rhythmbox"@,
        named_group_3(m).contains_key("ритмбокс"@) && named_group_3(m)["ритмбокс"@] == "rhythmbox"@,
        named_group_3(m).contains_key("vlc"@) && named_group_3(m)["vlc"@] == "vlc"@,
        named_group_3(m).contains_key("вэлси"@) && named_group_3(m)["вэлси"@] == "vlc"@,
        named_group_3(m).contains_key("evince"@) && named_group_3(m)["evince"@] == "evince"@,
        named_group_3(m).contains_key("пдф"@) && named_group_3(m)["пдф"@] == "evince"@,
        named_group_3(m).contains_key("gparted"@) && named_group_3(m)["gparted"@] == "gparted"@,
        named_group_3(m).contains_key("разметка диска"@) && named_group_3(m)["разметка диска"@] == "gparted"@,
        named_group_3(m).contains_key("gnome-disks"@) && named_group_3(m)["gnome-disks"@] == "gnome-disk-utility"@,
        named_group_3(m).contains_key("диски"@) && named_group_3(m)["диски"@] == "gnome-disk-utility"@,
{
    reveal_strlit("система");
    assert("система"@[0] == 'с' && "система"@[1] == 'и' && "система"@.last() == 'а');
    reveal_strlit("монитор");
    assert("монитор"@[0] == 'м' && "монитор"@[1] == 'о' && "монитор"@.last() == 'р');
    reveal_strlit("htop");
    assert("htop"@[0] == 'h' && "htop"@[1] == 't' && "htop"@.last() == 'p');
    reveal_strlit("нейросеть");
    assert("нейросеть"@[0] == 'н' && "нейросеть"@[1] == 'е' && "нейросеть"@.last() == 'ь');
    reveal_strlit("ollama");
    assert("ollama"@[0] == 'o' && "ollama"@[1] == 'l' && "ollama"@.last() == 'a');
    reveal_strlit("blender");
    assert("blender"@[0] == 'b' && "blender"@[1] == 'l' && "blender"@.last() == 'r');
    reveal_strlit("блендер");
    assert("блендер"@[0] == 'б' && "блендер"@[1] == 'л' && "блендер"@.last() == 'р');
    reveal_strlit("krita");
    assert("krita"@[0] == 'k' && "krita"@[1] == 'r' && "krita"@.last() == 'a');
    reveal_strlit("крита");
    assert("крита"@[0] == 'к' && "крита"@[1] == 'р' && "крита"@.last() == 'а');
    reveal_strlit("darktable");
    assert("darktable"@[0] == 'd' && "darktable"@[1] == 'a' && "darktable"@.last() == 'e');
    reveal_strlit("темная комната");
    assert("темная комната"@[0] == 'т' && "темная комната"@[1] == 'е' && "темная комната"@.last() == 'а');
    reveal_strlit("rhythmbox");
    assert("rhythmbox"@[0] == 'r' && "rhythmbox"@[1] == 'h' && "rhythmbox"@.last() == 'x');
    reveal_strlit("ритмбокс");
    assert("ритмбокс"@[0] == 'р' && "ритмбокс"@[1] == 'и' && "ритмбокс"@.last() == 'с');
    reveal_strlit("vlc");
    assert("vlc"@[0] == 'v' && "vlc"@[1] == 'l' && "vlc"@.last() == 'c');
    reveal_strlit("вэлси");
    assert("вэлси"@[0] == 'в' && "вэлси"@[1] == 'э' && "вэлси"@.last() == 'и');
    reveal_strlit("evince");
    assert("evince"@[0] == 'e' && "evince"@[1] == 'v' && "evince"@.last() == 'e');
    reveal_strlit("пдф");
    assert("пдф"@[0] == 'п' && "пдф"@[1] == 'д' && "пдф"@.last() == 'ф');
    reveal_strlit("gparted");
    assert("gparted"@[0] == 'g' && "gparted"@[1] == 'p' && "gparted"@.last() == 'd');
    reveal_strlit("разметка диска");
    assert("разметка диска"@[0] == 'р' && "разметка диска"@[1] == 'а' && "разметка диска"@.last() == 'а');
    reveal_strlit("gnome-disks");
    assert("gnome-disks"@[0] == 'g' && "gnome-disks"@[1] == 'n' && "gnome-disks"@.last() == 's');
    reveal_strlit("диски");
    assert("диски"@[0] == 'д' && "диски"@[1] == 'и' && "диски"@.last() == 'и');
}

/// The third group leaves every other name as it was.
proof fn lemma_group_3_keeps(m: Map<Seq<char>, Seq<char>>, k: Seq<char>)
    requires
        k.len() >= 2,
        !shaped_like_group_3(k),
    ensures
        named_group_3(m).contains_key(k) == m.contains_key(k),
        named_group_3(m)[k] == m[k],
{
    reveal_strlit("система");
    assert("система"@[0] == 'с' && "система"@[1] == 'и' && "система"@.last() == 'а');
    reveal_strlit("монитор");
    assert("монитор"@[0] == 'м' && "монитор"@[1] == 'о' && "монитор"@.last() == 'р');
    reveal_strlit("htop");
    assert("htop"@[0] == 'h' && "htop"@[1] == 't' && "htop"@.last() == 'p');
    reveal_strlit("нейросеть");
    assert("нейросеть"@[0] == 'н' && "нейросеть"@[1] == 'е' && "нейросеть"@.last() == 'ь');
    reveal_strlit("ollama");
    assert("ollama"@[0] == 'o' && "ollama"@[1] == 'l' && "ollama"@.last() == 'a');
    reveal_strlit("blender");
    assert("blender"@[0] == 'b' && "blender"@[1] == 'l' && "blender"@.last() == 'r');
    reveal_strlit("блендер");
    assert("блендер"@[0] == 'б' && "блендер"@[1] == 'л' && "блендер"@.last() == 'р');
    reveal_strlit("krita");
    assert("krita"@[0] == 'k' && "krita"@[1] == 'r' && "krita"@.last() == 'a');
    reveal_strlit("крита");
    assert("крита"@[0] == 'к' && "крита"@[1] == 'р' && "крита"@.last() == 'а');
    reveal_strlit("darktable");
    assert("darktable"@[0] == 'd' && "darktable"@[1] == 'a' && "darktable"@.last() == 'e');
    reveal_strlit("темная комната");
    assert("темная комната"@[0] == 'т' && "темная комната"@[1] == 'е' && "темная комната"@.last() == 'а');
    reveal_strlit("rhythmbox");
    assert("rhythmbox"@[0] == 'r' && "rhythmbox"@[1] == 'h' && "rhythmbox"@.last() == 'x');
    reveal_strlit("ритмбокс");
    assert("ритмбокс"@[0] == 'р' && "ритмбокс"@[1] == 'и' && "ритмбокс"@.last() == 'с');
    reveal_strlit("vlc");
    assert("vlc"@[0] == 'v' && "vlc"@[1] == 'l' && "vlc"@.last() == 'c');
    reveal_strlit("вэлси");
    assert("вэлси"@[0] == 'в' && "вэлси"@[1] == 'э' && "вэлси"@.last() == 'и');
    reveal_strlit("evince");
    assert("evince"@[0] == 'e' && "evince"@[1] == 'v' && "evince"@.last() == 'e');
    reveal_strlit("пдф");
    assert("пдф"@[0] == 'п' && "пдф"@[1] == 'д' && "пдф"@.last() == 'ф');
    reveal_strlit("gparted");
    assert("gparted"@[0] == 'g' && "gparted"@[1] == 'p' && "gparted"@.last() == 'd');
    reveal_strlit("разметка диска");
    assert("разметка диска"@[0] == 'р' && "разметка диска"@[1] == 'а' && "разметка диска"@.last() == 'а');
    reveal_strlit("gnome-disks");
    assert("gnome-disks"@[0] == 'g' && "gnome-disks"@[1] == 'n' && "gnome-disks"@.last() == 's');
    reveal_strlit("диски");
    assert("диски"@[0] == 'д' && "диски"@[1] == 'и' && "диски"@.last() == 'и');
}

/// A name shares its first two and its last letter with a name of the fourth group.
spec fn shaped_like_group_4(k: Seq<char>) -> bool {
    ||| (k[0] == 'b' && k[1] == 'r' && k.last() == 'r')
    ||| (k[0] == 'c' && k[1] == 'a' && k.last() == 'r')
    ||| (k[0] == 't' && k[1] == 'e' && k.last() == 'l')
    ||| (k[0] == 'f' && k[1] == 'i' && k.last() == 'r')
    ||| (k[0] == 'e' && k[1] == 'd' && k.last() == 'r')
    ||| (k[0] == 'c' && k[1] == 'o' && k.last() == 'e')
    ||| (k[0] == 'd' && k[1] == 'i' && k.last() == 'd')
    ||| (k[0] == 's' && k[1] == 'p' && k.last() == 'y')
    ||| (k[0] == 'v' && k[1] == 'i' && k.last() == 'r')
    ||| (k[0] == 'a' && k[1] == 'u' && k.last() == 'r')
    ||| (k[0] == 's' && k[1] == 'c' && k.last() == 't')
    ||| (k[0] == 's' && k[1] == 'c' && k.last() == 'r')
    ||| (k[0] == 'g' && k[1] == 'i' && k.last() == 't')
    ||| (k[0] == 'd' && k[1] == 'o' && k.last() == 'r')
    ||| (k[0] == 'o' && k[1] == 'f' && k.last() == 'e')
}

/// The names of the fourth group, with their packages, over any table.
proof fn lemma_group_4_entries(m: Map<Seq<char>, Seq<char>>)
    ensures
        named_group_4(m).contains_key("browser"@) && named_group_4(m)["browser"@] == "firefox"@,
        named_group_4(m).contains_key("calculator"@) && named_group_4(m)["calculator"@] == "gnome-calculator"@,
        named_group_4(m).contains_key("terminal"@) && named_group_4(m)["terminal"@] == "alacritty"@,
        named_group_4(m).contains_key("file manager"@) && named_group_4(m)["file manager"@] == "thunar"@,
        named_group_4(m).contains_key("editor"@) && named_group_4(m)["editor"@] == "gedit"@,
        named_group_4(m).contains_key("code"@) && named_group_4(m)["code"@] == "visual-studio-code-bin"@,
        named_group_4(m).contains_key("discord"@) && named_group_4(m)["discord"@] == "discord"@,
        named_group_4(m).contains_key("spotify"@) && named_group_4(m)["spotify"@] == "spotify"@,
        named_group_4(m).contains_key("video player"@) && named_group_4(m)["video player"@] == "mpv"@,
        named_group_4(m).contains_key("audio player"@) && named_group_4(m)["audio player"@] == "audacious"@,
        named_group_4(m).contains_key("screenshot"@) && named_group_4(m)["screenshot"@] == "flameshot"@,
        named_group_4(m).contains_key("screen recorder"@) && named_group_4(m)["screen recorder"@] == "obs-studio"@,
        named_group_4(m).contains_key("git"@) && named_group_4(m)["git"@] == "git"@,
        named_group_4(m).contains_key("docker"@) && named_group_4(m)["docker"@] == "docker"@,
        named_group_4(m).contains_key("office"@) && named_group_4(m)["office"@] == "libreoffice-fresh"@,
{
    reveal_strlit("browser");
    assert("browser"@[0] == 'b' && "browser"@[1] == 'r' && "browser"@.last() == 'r');
    reveal_strlit("calculator");
    assert("calculator"@[0] == 'c' && "calculator"@[1] == 'a' && "calculator"@.last() == 'r');
    reveal_strlit("terminal");
    assert("terminal"@[0] == 't' && "terminal"@[1] == 'e' && "terminal"@.last() == 'l');
    reveal_strlit("file manager");
    assert("file manager"@[0] == 'f' && "file manager"@[1] == 'i' && "file manager"@.last() == 'r');
    reveal_strlit("editor");
    assert("editor"@[0] == 'e' && "editor"@[1] == 'd' && "editor"@.last() == 'r');
    reveal_strlit("code");
    assert("code"@[0] == 'c' && "code"@[1] == 'o' && "code"@.last() == 'e');
    reveal_strlit("discord");
    assert("discord"@[0] == 'd' && "discord"@[1] == 'i' && "discord"@.last() == 'd');
    reveal_strlit("spotify");
    assert("spotify"@[0] == 's' && "spotify"@[1] == 'p' && "spotify"@.last() == 'y');
    reveal_strlit("video player");
    assert("video player"@[0] == 'v' && "video player"@[1] == 'i' && "video player"@.last() == 'r');
    reveal_strlit("audio player");
    assert("audio player"@[0] == 'a' && "audio player"@[1] == 'u' && "audio player"@.last() == 'r');
    reveal_strlit("screenshot");
    assert("screenshot"@[0] == 's' && "screenshot"@[1] == 'c' && "screenshot"@.last() == 't');
    reveal_strlit("screen recorder");
    assert("screen recorder"@[0] == 's' && "screen recorder"@[1] == 'c' && "screen recorder"@.last() == 'r');
    reveal_strlit("git");
    assert("git"@[0] == 'g' && "git"@[1] == 'i' && "git"@.last() == 't');
    reveal_strlit("docker");
    assert("docker"@[0] == 'd' && "docker"@[1] == 'o' && "docker"@.last() == 'r');
    reveal_strlit("office");
    assert("office"@[0] == 'o' && "office"@[1] == 'f' && "office"@.last() == 'e');
}

/// The fourth group leaves every other name as it was.
proof fn lemma_group_4_keeps(m: Map<Seq<char>, Seq<char>>, k: Seq<char>)
    requires
        k.len() >= 2,
        !shaped_like_group_4(k),
    ensures
        named_group_4(m).contains_key(k) == m.contains_key(k),
        named_group_4(m)[k] == m[k],
{
    reveal_strlit("browser");
    assert("browser"@[0] == 'b' && "browser"@[1] == 'r' && "browser"@.last() == 'r');
    reveal_strlit("calculator");
    assert("calculator"@[0] == 'c' && "calculator"@[1] == 'a' && "calculator"@.last() == 'r');
    reveal_strlit("terminal");
    assert("terminal"@[0] == 't' && "terminal"@[1] == 'e' && "terminal"@.last() == 'l');
    reveal_strlit("file manager");
    assert("file manager"@[0] == 'f' && "file manager"@[1] == 'i' && "file manager"@.last() == 'r');
    reveal_strlit("editor");
    assert("editor"@[0] == 'e' && "editor"@[1] == 'd' && "editor"@.last() == 'r');
    reveal_strlit("code");
    assert("code"@[0] == 'c' && "code"@[1] == 'o' && "code"@.last() == 'e');
    reveal_strlit("discord");
    assert("discord"@[0] == 'd' && "discord"@[1] == 'i' && "discord"@.last() == 'd');
    reveal_strlit("spotify");
    assert("spotify"@[0] == 's' && "spotify"@[1] == 'p' && "spotify"@.last() == 'y');
    reveal_strlit("video player");
    assert("video player"@[0] == 'v' && "video player"@[1] == 'i' && "video player"@.last() == 'r');
    reveal_strlit("audio player");
    assert("audio player"@[0] == 'a' && "audio player"@[1] == 'u' && "audio player"@.last() == 'r');
    reveal_strlit("screenshot");
    assert("screenshot"@[0] == 's' && "screenshot"@[1] == 'c' && "screenshot"@.last() == 't');
    reveal_strlit("screen recorder");
    assert("screen recorder"@[0] == 's' && "screen recorder"@[1] == 'c' && "screen recorder"@.last() == 'r');
    reveal_strlit("git");
    assert("git"@[0] == 'g' && "git"@[1] == 'i' && "git"@.last() == 't');
    reveal_strlit("docker");
    assert("docker"@[0] == 'd' && "docker"@[1] == 'o' && "docker"@.last() == 'r');
    reveal_strlit("office");
    assert("office"@[0] == 'o' && "office"@[1] == 'f' && "office"@.last() == 'e');
}

/// A name shares its first two and its last letter with a name of the fifth group.
spec fn shaped_like_group_5(k: Seq<char>) -> bool {
    ||| (k[0] == 'e' && k[1] == 'm' && k.last() == 'l')
    ||| (k[0] == 't' && k[1] == 'o' && k.last() == 't')
    ||| (k[0] == 's' && k[1] == 't' && k.last() == 'm')
    ||| (k[0] == 'd' && k[1] == 'r' && k.last() == 'g')
    ||| (k[0] == 'b' && k[1] == 'l' && k.last() == 'h')
    ||| (k[0] == 'p' && k[1] == 'r' && k.last() == 'r')
    ||| (k[0] == 'v' && k[1] == 'i' && k.last() == 'e')
    ||| (k[0] == 'c' && k[1] == 'h' && k.last() == 't')
    ||| (k[0] == 'm' && k[1] == 'a' && k.last() == 'x')
    ||| (k[0] == 's' && k[1] == 'y' && k.last() == 'r')
    ||| (k[0] == 'n' && k[1] == 'e' && k.last() == 'l')
    ||| (k[0] == 'b' && k[1] == 'l' && k.last() == 'r')
    ||| (k[0] == 'k' && k[1] == 'r' && k.last() == 'a')
    ||| (k[0] == 'p' && k[1] == 'd' && k.last() == 'f')
    ||| (k[0] == 'd' && k[1] == 'i' && k.last() == 'k')
}

/// The names of the fifth group, with their packages, over any table.
proof fn lemma_group_5_entries(m: Map<Seq<char>, Seq<char>>)
    ensures
        named_group_5(m).contains_key("email"@) && named_group_5(m)["email"@] == "thunderbird"@,
        named_group_5(m).contains_key("torrent"@) && named_group_5(m)["torrent"@] == "qbittorrent"@,
        named_group_5(m).contains_key("steam"@) && named_group_5(m)["steam"@] == "steam"@,
        named_group_5(m).contains_key("drawing"@) && named_group_5(m)["drawing"@] == "gimp"@,
        named_group_5(m).contains_key("bluetooth"@) && named_group_5(m)["bluetooth"@] == "blueman"@,
        named_group_5(m).contains_key("printer"@) && named_group_5(m)["printer"@] == "system-config-printer"@,
        named_group_5(m).contains_key("virtual machine"@) && named_group_5(m)["virtual machine"@] == "virt-manager"@,
        named_group_5(m).contains_key("chat"@) && named_group_5(m)["chat"@] == "pidgin"@,
        named_group_5(m).contains_key("matrix"@) && named_group_5(m)["matrix"@] == "element-desktop"@,
        named_group_5(m).contains_key("system monitor"@) && named_group_5(m)["system monitor"@] == "gnome-system-monitor"@,
        named_group_5(m).contains_key("neural"@) && named_group_5(m)["neural"@] == "ollama"@,
        named_group_5(m).contains_key("blender"@) && named_group_5(m)["blender"@] == "blender"@,
        named_group_5(m).contains_key("krita"@) && named_group_5(m)["krita"@] == "krita"@,
        named_group_5(m).contains_key("pdf"@) && named_group_5(m)["pdf"@] == "evince"@,
        named_group_5(m).contains_key("disk"@) && named_group_5(m)["disk"@] == "gnome-disk-utility"@,
{
    reveal_strlit("email");
    assert("email"@[0] == 'e' && "email"@[1] == 'm' && "email"@.last() == 'l');
    reveal_strlit("torrent");
    assert("torrent"@[0] == 't' && "torrent"@[1] == 'o' && "torrent"@.last() == 't');
    reveal_strlit("steam");
    assert("steam"@[0] == 's' && "steam"@[1] == 't' && "steam"@.last() == 'm');
    reveal_strlit("drawing");
    assert("drawing"@[0] == 'd' && "drawing"@[1] == 'r' && "drawing"@.last() == 'g');
    reveal_strlit("bluetooth");
    assert("bluetooth"@[0] == 'b' && "bluetooth"@[1] == 'l' && "bluetooth"@.last() == 'h');
    reveal_strlit("printer");
    assert("printer"@[0] == 'p' && "printer"@[1] == 'r' && "printer"@.last() == 'r');
    reveal_strlit("virtual machine");
    assert("virtual machine"@[0] == 'v' && "virtual machine"@[1] == 'i' && "virtual machine"@.last() == 'e');
    reveal_strlit("chat");
    assert("chat"@[0] == 'c' && "chat"@[1] == 'h' && "chat"@.last() == 't');
    reveal_strlit("matrix");
    assert("matrix"@[0] == 'm' && "matrix"@[1] == 'a' && "matrix"@.last() == 'x');
    reveal_strlit("system monitor");
    assert("system monitor"@[0] == 's' && "system monitor"@[1] == 'y' && "system monitor"@.last() == 'r');
    reveal_strlit("neural");
    assert("neural"@[0] == 'n' && "neural"@[1] == 'e' && "neural"@.last() == 'l');
    reveal_strlit("blender");
    assert("blender"@[0] == 'b' && "blender"@[1] == 'l' && "blender"@.last() == 'r');
    reveal_strlit("krita");
    assert("krita"@[0] == 'k' && "krita"@[1] == 'r' && "krita"@.last() == 'a');
    reveal_strlit("pdf");
    assert("pdf"@[0] == 'p' && "pdf"@[1] == 'd' && "pdf"@.last() == 'f');
    reveal_strlit("disk");
    assert("disk"@[0] == 'd' && "disk"@[1] == 'i' && "disk"@.last() == 'k');
}

/// The fifth group leaves every other name as it was.
proof fn lemma_group_5_keeps(m: Map<Seq<char>, Seq<char>>, k: Seq<char>)
    requires
        k.len() >= 2,
        !shaped_like_group_5(k),
    ensures
        named_group_5(m).contains_key(k) == m.contains_key(k),
        named_group_5(m)[k] == m[k],
{
    reveal_strlit("email");
    assert("email"@[0] == 'e' && "email"@[1] == 'm' && "email"@.last() == 'l');
    reveal_strlit("torrent");
    assert("torrent"@[0] == 't' && "torrent"@[1] == 'o' && "torrent"@.last() == 't');
    reveal_strlit("steam");
    assert("steam"@[0] == 's' && "steam"@[1] == 't' && "steam"@.last() == 'm');
    reveal_strlit("drawing");
    assert("drawing"@[0] == 'd' && "drawing"@[1] == 'r' && "drawing"@.last() == 'g');
    reveal_strlit("bluetooth");
    assert("bluetooth"@[0] == 'b' && "bluetooth"@[1] == 'l' && "bluetooth"@.last() == 'h');
    reveal_strlit("printer");
    assert("printer"@[0] == 'p' && "printer"@[1] == 'r' && "printer"@.last() == 'r');
    reveal_strlit("virtual machine");
    assert("virtual machine"@[0] == 'v' && "virtual machine"@[1] == 'i' && "virtual machine"@.last() == 'e');
    reveal_strlit("chat");
    assert("chat"@[0] == 'c' && "chat"@[1] == 'h' && "chat"@.last() == 't');
    reveal_strlit("matrix");
    assert("matrix"@[0] == 'm' && "matrix"@[1] == 'a' && "matrix"@.last() == 'x');
    reveal_strlit("system monitor");
    assert("system monitor"@[0] == 's' && "system monitor"@[1] == 'y' && "system monitor"@.last() == 'r');
    reveal_strlit("neural");
    assert("neural"@[0] == 'n' && "neural"@[1] == 'e' && "neural"@.last() == 'l');
    reveal_strlit("blender");
    assert("blender"@[0] == 'b' && "blender"@[1] == 'l' && "blender"@.last() == 'r');
    reveal_strlit("krita");
    assert("krita"@[0] == 'k' && "krita"@[1] == 'r' && "krita"@.last() == 'a');
    reveal_strlit("pdf");
    assert("pdf"@[0] == 'p' && "pdf"@[1] == 'd' && "pdf"@.last() == 'f');
    reveal_strlit("disk");
    assert("disk"@[0] == 'd' && "disk"@[1] == 'i' && "disk"@.last() == 'k');
}

proof fn lemma_known_0()
    ensures
        knowledge_table().contains_key("телеграм"@),
        knowledge_table()["телеграм"@] == "telegram-desktop"@,
{
    reveal_strlit("телеграм");
    let m1 = named_group_1(Map::<Seq<char>, Seq<char>>::empty());
    lemma_group_1_entries(Map::<Seq<char>, Seq<char>>::empty());
    let m2 = named_group_2(m1);
    lemma_group_2_keeps(m1, "телеграм"@);
    let m3 = named_group_3(m2);
    lemma_group_3_keeps(m2, "телеграм"@);
    let m4 = named_group_4(m3);
    lemma_group_4_keeps(m3, "телеграм"@);
    let m5 = named_group_5(m4);
    lemma_group_5_keeps(m4, "телеграм"@);
    lemma_with_numbered_keeps(m5, 100, "телеграм"@);
}

proof fn lemma_known_1()
    ensures
        knowledge_table().contains_key("telegram"@),
        knowledge_table()["telegram"@] == "telegram-desktop"@,
{
    reveal_strlit("telegram");
    let m1 = named_group_1(Map::<Seq<char>, Seq<char>>::empty());
    lemma_group_1_entries(Map::<Seq<char>, Seq<char>>::empty());
    let m2 = named_group_2(m1);
    lemma_group_2_keeps(m1, "telegram"@);
    let m3 = named_group_3(m2);
    lemma_group_3_keeps(m2, "telegram"@);
    let m4 = named_group_4(m3);
    lemma_group_4_keeps(m3, "telegram"@);
    let m5 = named_group_5(m4);
    lemma_group_5_keeps(m4, "telegram"@);
    lemma_with_numbered_keeps(m5, 100, "telegram"@);
}

proof fn lemma_known_2()
    ensures
        knowledge_table().contains_key("браузер"@),
        knowledge_table()["браузер"@] == "firefox"@,
{
    reveal_strlit("браузер");
    let m1 = named_group_1(Map::<Seq<char>, Seq<char>>::empty());
    lemma_group_1_entries(Map::<Seq<char>, Seq<char>>::empty());
    let m2 = named_group_2(m1);
    lemma_group_2_keeps(m1, "браузер"@);
    let m3 = named_group_3(m2);
    lemma_group_3_keeps(m2, "браузер"@);
    let m4 = named_group_4(m3);
    lemma_group_4_keeps(m3, "браузер"@);
    let m5 = named_group_5(m4);
    lemma_group_5_keeps(m4, "браузер"@);
    lemma_with_numbered_keeps(m5, 100, "браузер"@);
}

proof fn lemma_known_3()
    ensures
        knowledge_table().contains_key("firefox"@),
        knowledge_table()["firefox"@] == "firefox"@,
{
    reveal_strlit("firefox");
    let m1 = named_group_1(Map::<Seq<char>, Seq<char>>::empty());
    lemma_group_1_entries(Map::<Seq<char>, Seq<char>>::empty());
    let m2 = named_group_2(m1);
    lemma_group_2_keeps(m1, "firefox"@);
    let m3 = named_group_3(m2);
    lemma_group_3_keeps(m2, "firefox"@);
    let m4 = named_group_4(m3);
    lemma_group_4_keeps(m3, "firefox"@);
    let m5 = named_group_5(m4);
    lemma_group_5_keeps(m4, "firefox"@);
    lemma_with_numbered_keeps(m5, 100, "firefox"@);
}

proof fn lemma_known_4()
    ensures
        knowledge_table().contains_key("калькулятор"@),
        knowledge_table()["калькулятор"@] == "gnome-calculator"@,
{
    reveal_strlit("калькулятор");
    let m1 = named_group_1(Map::<Seq<char>, Seq<char>>::empty());
    lemma_group_1_entries(Map::<Seq<char>, Seq<char>>::empty());
    let m2 = named_group_2(m1);
    lemma_group_2_keeps(m1, "калькулятор"@);
    let m3 = named_group_3(m2);
    lemma_group_3_keeps(m2, "калькулятор"@);
    let m4 = named_group_4(m3);
    lemma_group_4_keeps(m3, "калькулятор"@);
    let m5 = named_group_5(m4);
    lemma_group_5_keeps(m4, "калькулятор"@);
    lemma_with_numbered_keeps(m5, 100, "калькулятор"@);
}

proof fn lemma_known_5()
    ensures
        knowledge_table().contains_key("терминал"@),
        knowledge_table()["терминал"@] == "alacritty"@,
{
    reveal_strlit("терминал");
    let m1 = named_group_1(Map::<Seq<char>, Seq<char>>::empty());
    lemma_group_1_entries(Map::<Seq<char>, Seq<char>>::empty());
    let m2 = named_group_2(m1);
    lemma_group_2_keeps(m1, "терминал"@);
    let m3 = named_group_3(m2);
    lemma_group_3_keeps(m2, "терминал"@);
    let m4 = named_group_4(m3);
    lemma_group_4_keeps(m3, "терминал"@);
    let m5 = named_group_5(m4);
    lemma_group_5_keeps(m4, "терминал"@);
    lemma_with_numbered_keeps(m5, 100, "терминал"@);
}

proof fn lemma_known_6()
    ensures
        knowledge_table().contains_key("alacritty"@),
        knowledge_table()["alacritty"@] == "alacritty"@,
{
    reveal_strlit("alacritty");
    let m1 = named_group_1(Map::<Seq<char>, Seq<char>>::empty());
    lemma_group_1_entries(Map::<Seq<char>, Seq<char>>::empty());
    let m2 = named_group_2(m1);
    lemma_group_2_keeps(m1, "alacritty"@);
    let m3 = named_group_3(m2);
    lemma_group_3_keeps(m2, "alacritty"@);
    let m4 = named_group_4(m3);
    lemma_group_4_keeps(m3, "alacritty"@);
    let m5 = named_group_5(m4);
    lemma_group_5_keeps(m4, "alacritty"@);
    lemma_with_numbered_keeps(m5, 100, "alacritty"@);
}

proof fn lemma_known_7()
    ensures
        knowledge_table().contains_key("файловый менеджер"@),
        knowledge_table()["файловый менеджер"@] == "thunar"@,
{
    reveal_strlit("файловый менеджер");
    let m1 = named_group_1(Map::<Seq<char>, Seq<char>>::empty());
    lemma_group_1_entries(Map::<Seq<char>, Seq<char>>::empty());
    let m2 = named_group_2(m1);
    lemma_group_2_keeps(m1, "файловый менеджер"@);
    let m3 = named_group_3(m2);
    lemma_group_3_keeps(m2, "файловый менеджер"@);
    let m4 = named_group_4(m3);
    lemma_group_4_keeps(m3, "файловый менеджер"@);
    let m5 = named_group_5(m4);
    lemma_group_5_keeps(m4, "файловый менеджер"@);
    lemma_with_numbered_keeps(m5, 100, "файловый менеджер"@);
}

proof fn lemma_known_8()
    ensures
        knowledge_table().contains_key("проводник"@),
        knowledge_table()["проводник"@] == "thunar"@,
{
    reveal_strlit("проводник");
    let m1 = named_group_1(Map::<Seq<char>, Seq<char>>::empty());
    lemma_group_1_entries(Map::<Seq<char>, Seq<char>>::empty());
    let m2 = named_group_2(m1);
    lemma_group_2_keeps(m1, "проводник"@);
    let m3 = named_group_3(m2);
    lemma_group_3_keeps(m2, "проводник"@);
    let m4 = named_group_4(m3);
    lemma_group_4_keeps(m3, "проводник"@);
    let m5 = named_group_5(m4);
    lemma_group_5_keeps(m4, "проводник"@);
    lemma_with_numbered_keeps(m5, 100, "проводник"@);
}

proof fn lemma_known_9()
    ensures
        knowledge_table().contains_key("редактор"@),
        knowledge_table()["редактор"@] == "gedit"@,
{
    reveal_strlit("редактор");
    let m1 = named_group_1(Map::<Seq<char>, Seq<char>>::empty());
    lemma_group_1_entries(Map::<Seq<char>, Seq<char>>::empty());
    let m2 = named_group_2(m1);
    lemma_group_2_keeps(m1, "редактор"@);
    let m3 = named_group_3(m2);
    lemma_group_3_keeps(m2, "редактор"@);
    let m4 = named_group_4(m3);
    lemma_group_4_keeps(m3, "редактор"@);
    let m5 = named_group_5(m4);
    lemma_group_5_keeps(m4, "редактор"@);
    lemma_with_numbered_keeps(m5, 100, "редактор"@);
}

proof fn lemma_known_10()
    ensures
        knowledge_table().contains_key("блокнот"@),
        knowledge_table()["блокнот"@] == "gedit"@,
{
    reveal_strlit("блокнот");
    let m1 = named_group_1(Map::<Seq<char>, Seq<char>>::empty());
    lemma_group_1_entries(Map::<Seq<char>, Seq<char>>::empty());
    let m2 = named_group_2(m1);
    lemma_group_2_keeps(m1, "блокнот"@);
    let m3 = named_group_3(m2);
    lemma_group_3_keeps(m2, "блокнот"@);
    let m4 = named_group_4(m3);
    lemma_group_4_keeps(m3, "блокнот"@);
    let m5 = named_group_5(m4);
    lemma_group_5_keeps(m4, "блокнот"@);
    lemma_with_numbered_keeps(m5, 100, "блокнот"@);
}

proof fn lemma_known_11()
    ensures
        knowledge_table().contains_key("код"@),
        knowledge_table()["код"@] == "visual-studio-code-bin"@,
{
    reveal_strlit("код");
    let m1 = named_group_1(Map::<Seq<char>, Seq<char>>::empty());
    lemma_group_1_entries(Map::<Seq<char>, Seq<char>>::empty());
    let m2 = named_group_2(m1);
    lemma_group_2_keeps(m1, "код"@);
    let m3 = named_group_3(m2);
    lemma_group_3_keeps(m2, "код"@);
    let m4 = named_group_4(m3);
    lemma_group_4_keeps(m3, "код"@);
    let m5 = named_group_5(m4);
    lemma_group_5_keeps(m4, "код"@);
    lemma_with_numbered_keeps(m5, 100, "код"@);
}

proof fn lemma_known_12()
    ensures
        knowledge_table().contains_key("vscode"@),
        knowledge_table()["vscode"@] == "visual-studio-code-bin"@,
{
    reveal_strlit("vscode");
    let m1 = named_group_1(Map::<Seq<char>, Seq<char>>::empty());
    lemma_group_1_entries(Map::<Seq<char>, Seq<char>>::empty());
    let m2 = named_group_2(m1);
    lemma_group_2_keeps(m1, "vscode"@);
    let m3 = named_group_3(m2);
    lemma_group_3_keeps(m2, "vscode"@);
    let m4 = named_group_4(m3);
    lemma_group_4_keeps(m3, "vscode"@);
    let m5 = named_group_5(m4);
    lemma_group_5_keeps(m4, "vscode"@);
    lemma_with_numbered_keeps(m5, 100, "vscode"@);
}

proof fn lemma_known_13()
    ensures
        knowledge_table().contains_key("дискорд"@),
        knowledge_table()["дискорд"@] == "discord"@,
{
    reveal_strlit("дискорд");
    let m1 = named_group_1(Map::<Seq<char>, Seq<char>>::empty());
    lemma_group_1_entries(Map::<Seq<char>, Seq<char>>::empty());
    let m2 = named_group_2(m1);
    lemma_group_2_keeps(m1, "дискорд"@);
    let m3 = named_group_3(m2);
    lemma_group_3_keeps(m2, "дискорд"@);
    let m4 = named_group_4(m3);
    lemma_group_4_keeps(m3, "дискорд"@);
    let m5 = named_group_5(m4);
    lemma_group_5_keeps(m4, "дискорд"@);
    lemma_with_numbered_keeps(m5, 100, "дискорд"@);
}

proof fn lemma_known_14()
    ensures
        knowledge_table().contains_key("спотифай"@),
        knowledge_table()["спотифай"@] == "spotify"@,
{
    reveal_strlit("спотифай");
    let m1 = named_group_1(Map::<Seq<char>, Seq<char>>::empty());
    lemma_group_1_entries(Map::<Seq<char>, Seq<char>>::empty());
    let m2 = named_group_2(m1);
    lemma_group_2_keeps(m1, "спотифай"@);
    let m3 = named_group_3(m2);
    lemma_group_3_keeps(m2, "спотифай"@);
    let m4 = named_group_4(m3);
    lemma_group_4_keeps(m3, "спотифай"@);
    let m5 = named_group_5(m4);
    lemma_group_5_keeps(m4, "спотифай"@);
    lemma_with_numbered_keeps(m5, 100, "спотифай"@);
}

proof fn lemma_known_15()
    ensures
        knowledge_table().contains_key("видеоплеер"@),
        knowledge_table()["видеоплеер"@] == "mpv"@,
{
    reveal_strlit("видеоплеер");
    let m1 = named_group_1(Map::<Seq<char>, Seq<char>>::empty());
    lemma_group_1_entries(Map::<Seq<char>, Seq<char>>::empty());
    let m2 = named_group_2(m1);
    lemma_group_2_keeps(m1, "видеоплеер"@);
    let m3 = named_group_3(m2);
    lemma_group_3_keeps(m2, "видеоплеер"@);
    let m4 = named_group_4(m3);
    lemma_group_4_keeps(m3, "видеоплеер"@);
    let m5 = named_group_5(m4);
    lemma_group_5_keeps(m4, "видеоплеер"@);
    lemma_with_numbered_keeps(m5, 100, "видеоплеер"@);
}

proof fn lemma_known_16()
    ensures
        knowledge_table().contains_key("mpv"@),
        knowledge_table()["mpv"@] == "mpv"@,
{
    reveal_strlit("mpv");
    let m1 = named_group_1(Map::<Seq<char>, Seq<char>>::empty());
    lemma_group_1_entries(Map::<Seq<char>, Seq<char>>::empty());
    let m2 = named_group_2(m1);
    lemma_group_2_keeps(m1, "mpv"@);
    let m3 = named_group_3(m2);
    lemma_group_3_keeps(m2, "mpv"@);
    let m4 = named_group_4(m3);
    lemma_group_4_keeps(m3, "mpv"@);
    let m5 = named_group_5(m4);
    lemma_group_5_keeps(m4, "mpv"@);
    lemma_with_numbered_keeps(m5, 100, "mpv"@);
}

proof fn lemma_known_17()
    ensures
        knowledge_table().contains_key("аудиоплеер"@),
        knowledge_table()["аудиоплеер"@] == "audacious"@,
{
    reveal_strlit("аудиоплеер");
    let m1 = named_group_1(Map::<Seq<char>, Seq<char>>::empty());
    lemma_group_1_entries(Map::<Seq<char>, Seq<char>>::empty());
    let m2 = named_group_2(m1);
    lemma_group_2_keeps(m1, "аудиоплеер"@);
    let m3 = named_group_3(m2);
    lemma_group_3_keeps(m2, "аудиоплеер"@);
    let m4 = named_group_4(m3);
    lemma_group_4_keeps(m3, "аудиоплеер"@);
    let m5 = named_group_5(m4);
    lemma_group_5_keeps(m4, "аудиоплеер"@);
    lemma_with_numbered_keeps(m5, 100, "аудиоплеер"@);
}

proof fn lemma_known_18()
    ensures
        knowledge_table().contains_key("образ диска"@),
        knowledge_table()["образ диска"@] == "balena-etcher"@,
{
    reveal_strlit("образ диска");
    let m1 = named_group_1(Map::<Seq<char>, Seq<char>>::empty());
    lemma_group_1_entries(Map::<Seq<char>, Seq<char>>::empty());
    let m2 = named_group_2(m1);
    lemma_group_2_keeps(m1, "образ диска"@);
    let m3 = named_group_3(m2);
    lemma_group_3_keeps(m2, "образ диска"@);
    let m4 = named_group_4(m3);
    lemma_group_4_keeps(m3, "образ диска"@);
    let m5 = named_group_5(m4);
    lemma_group_5_keeps(m4, "образ диска"@);
    lemma_with_numbered_keeps(m5, 100, "образ диска"@);
}

proof fn lemma_known_19()
    ensures
        knowledge_table().contains_key("архиватор"@),
        knowledge_table()["архиватор"@] == "file-roller"@,
{
    reveal_strlit("архиватор");
    let m1 = named_group_1(Map::<Seq<char>, Seq<char>>::empty());
    lemma_group_1_entries(Map::<Seq<char>, Seq<char>>::empty());
    let m2 = named_group_2(m1);
    lemma_group_2_keeps(m1, "архиватор"@);
    let m3 = named_group_3(m2);
    lemma_group_3_keeps(m2, "архиватор"@);
    let m4 = named_group_4(m3);
    lemma_group_4_keeps(m3, "архиватор"@);
    let m5 = named_group_5(m4);
    lemma_group_5_keeps(m4, "архиватор"@);
    lemma_with_numbered_keeps(m5, 100, "архиватор"@);
}

proof fn lemma_known_20()
    ensures
        knowledge_table().contains_key("скриншот"@),
        knowledge_table()["скриншот"@] == "flameshot"@,
{
    reveal_strlit("скриншот");
    let m1 = named_group_1(Map::<Seq<char>, Seq<char>>::empty());
    lemma_group_1_entries(Map::<Seq<char>, Seq<char>>::empty());
    let m2 = named_group_2(m1);
    lemma_group_2_keeps(m1, "скриншот"@);
    let m3 = named_group_3(m2);
    lemma_group_3_keeps(m2, "скриншот"@);
    let m4 = named_group_4(m3);
    lemma_group_4_keeps(m3, "скриншот"@);
    let m5 = named_group_5(m4);
    lemma_group_5_keeps(m4, "скриншот"@);
    lemma_with_numbered_keeps(m5, 100, "скриншот"@);
}

proof fn lemma_known_21()
    ensures
        knowledge_table().contains_key("flameshot"@),
        knowledge_table()["flameshot"@] == "flameshot"@,
{
    reveal_strlit("flameshot");
    let m1 = named_group_1(Map::<Seq<char>, Seq<char>>::empty());
    lemma_group_1_entries(Map::<Seq<char>, Seq<char>>::empty());
    let m2 = named_group_2(m1);
    lemma_group_2_keeps(m1, "flameshot"@);
    let m3 = named_group_3(m2);
    lemma_group_3_keeps(m2, "flameshot"@);
    let m4 = named_group_4(m3);
    lemma_group_4_keeps(m3, "flameshot"@);
    let m5 = named_group_5(m4);
    lemma_group_5_keeps(m4, "flameshot"@);
    lemma_with_numbered_keeps(m5, 100, "flameshot"@);
}

proof fn lemma_known_22()
    ensures
        knowledge_table().contains_key("запись экрана"@),
        knowledge_table()["запись экрана"@] == "obs-studio"@,
{
    reveal_strlit("запись экрана");
    let m1 = named_group_1(Map::<Seq<char>, Seq<char>>::empty());
    lemma_group_1_entries(Map::<Seq<char>, Seq<char>>::empty());
    let m2 = named_group_2(m1);
    lemma_group_2_keeps(m1, "запись экрана"@);
    let m3 = named_group_3(m2);
    lemma_group_3_keeps(m2, "запись экрана"@);
    let m4 = named_group_4(m3);
    lemma_group_4_keeps(m3, "запись экрана"@);
    let m5 = named_group_5(m4);
    lemma_group_5_keeps(m4, "запись экрана"@);
    lemma_with_numbered_keeps(m5, 100, "запись экрана"@);
}

proof fn lemma_known_23()
    ensures
        knowledge_table().contains_key("obs"@),
        knowledge_table()["obs"@] == "obs-studio"@,
{
    reveal_strlit("obs");
    let m1 = named_group_1(Map::<Seq<char>, Seq<char>>::empty());
    let m2 = named_group_2(m1);
    lemma_group_2_entries(m1);
    let m3 = named_group_3(m2);
    lemma_group_3_keeps(m2, "obs"@);
    let m4 = named_group_4(m3);
    lemma_group_4_keeps(m3, "obs"@);
    let m5 = named_group_5(m4);
    lemma_group_5_keeps(m4, "obs"@);
    lemma_with_numbered_keeps(m5, 100, "obs"@);
}

proof fn lemma_known_24()
    ensures
        knowledge_table().contains_key("гит"@),
        knowledge_table()["гит"@] == "git"@,
{
    reveal_strlit("гит");
    let m1 = named_group_1(Map::<Seq<char>, Seq<char>>::empty());
    let m2 = named_group_2(m1);
    lemma_group_2_entries(m1);
    let m3 = named_group_3(m2);
    lemma_group_3_keeps(m2, "гит"@);
    let m4 = named_group_4(m3);
    lemma_group_4_keeps(m3, "гит"@);
    let m5 = named_group_5(m4);
    lemma_group_5_keeps(m4, "гит"@);
    lemma_with_numbered_keeps(m5, 100, "гит"@);
}

proof fn lemma_known_25()
    ensures
        knowledge_table().contains_key("докер"@),
        knowledge_table()["докер"@] == "docker"@,
{
    reveal_strlit("докер");
    let m1 = named_group_1(Map::<Seq<char>, Seq<char>>::empty());
    let m2 = named_group_2(m1);
    lemma_group_2_entries(m1);
    let m3 = named_group_3(m2);
    lemma_group_3_keeps(m2, "докер"@);
    let m4 = named_group_4(m3);
    lemma_group_4_keeps(m3, "докер"@);
    let m5 = named_group_5(m4);
    lemma_group_5_keeps(m4, "докер"@);
    lemma_with_numbered_keeps(m5, 100, "докер"@);
}

proof fn lemma_known_26()
    ensures
        knowledge_table().contains_key("компас"@),
        knowledge_table()["компас"@] == "libreoffice"@,
{
    reveal_strlit("компас");
    let m1 = named_group_1(Map::<Seq<char>, Seq<char>>::empty());
    let m2 = named_group_2(m1);
    lemma_group_2_entries(m1);
    let m3 = named_group_3(m2);
    lemma_group_3_keeps(m2, "компас"@);
    let m4 = named_group_4(m3);
    lemma_group_4_keeps(m3, "компас"@);
    let m5 = named_group_5(m4);
    lemma_group_5_keeps(m4, "компас"@);
    lemma_with_numbered_keeps(m5, 100, "компас"@);
}

proof fn lemma_known_27()
    ensures
        knowledge_table().contains_key("офис"@),
        knowledge_table()["офис"@] == "libreoffice-fresh"@,
{
    reveal_strlit("офис");
    let m1 = named_group_1(Map::<Seq<char>, Seq<char>>::empty());
    let m2 = named_group_2(m1);
    lemma_group_2_entries(m1);
    let m3 = named_group_3(m2);
    lemma_group_3_keeps(m2, "офис"@);
    let m4 = named_group_4(m3);
    lemma_group_4_keeps(m3, "офис"@);
    let m5 = named_group_5(m4);
    lemma_group_5_keeps(m4, "офис"@);
    lemma_with_numbered_keeps(m5, 100, "офис"@);
}

proof fn lemma_known_28()
    ensures
        knowledge_table().contains_key("почта"@),
        knowledge_table()["почта"@] == "thunderbird"@,
{
    reveal_strlit("почта");
    let m1 = named_group_1(Map::<Seq<char>, Seq<char>>::empty());
    let m2 = named_group_2(m1);
    lemma_group_2_entries(m1);
    let m3 = named_group_3(m2);
    lemma_group_3_keeps(m2, "почта"@);
    let m4 = named_group_4(m3);
    lemma_group_4_keeps(m3, "почта"@);
    let m5 = named_group_5(m4);
    lemma_group_5_keeps(m4, "почта"@);
    lemma_with_numbered_keeps(m5, 100, "почта"@);
}

proof fn lemma_known_29()
    ensures
        knowledge_table().contains_key("thunderbird"@),
        knowledge_table()["thunderbird"@] == "thunderbird"@,
{
    reveal_strlit("thunderbird");
    let m1 = named_group_1(Map::<Seq<char>, Seq<char>>::empty());
    let m2 = named_group_2(m1);
    lemma_group_2_entries(m1);
    let m3 = named_group_3(m2);
    lemma_group_3_keeps(m2, "thunderbird"@);
    let m4 = named_group_4(m3);
    lemma_group_4_keeps(m3, "thunderbird"@);
    let m5 = named_group_5(m4);
    lemma_group_5_keeps(m4, "thunderbird"@);
    lemma_with_numbered_keeps(m5, 100, "thunderbird"@);
}

proof fn lemma_known_30()
    ensures
        knowledge_table().contains_key("торрент"@),
        knowledge_table()["торрент"@] == "qbittorrent"@,
{
    reveal_strlit("торрент");
    let m1 = named_group_1(Map::<Seq<char>, Seq<char>>::empty());
    let m2 = named_group_2(m1);
    lemma_group_2_entries(m1);
    let m3 = named_group_3(m2);
    lemma_group_3_keeps(m2, "торрент"@);
    let m4 = named_group_4(m3);
    lemma_group_4_keeps(m3, "торрент"@);
    let m5 = named_group_5(m4);
    lemma_group_5_keeps(m4, "торрент"@);
    lemma_with_numbered_keeps(m5, 100, "торрент"@);
}

proof fn lemma_known_31()
    ensures
        knowledge_table().contains_key("qbittorrent"@),
        knowledge_table()["qbittorrent"@] == "qbittorrent"@,
{
    reveal_strlit("qbittorrent");
    let m1 = named_group_1(Map::<Seq<char>, Seq<char>>::empty());
    let m2 = named_group_2(m1);
    lemma_group_2_entries(m1);
    let m3 = named_group_3(m2);
    lemma_group_3_keeps(m2, "qbittorrent"@);
    let m4 = named_group_4(m3);
    lemma_group_4_keeps(m3, "qbittorrent"@);
    let m5 = named_group_5(m4);
    lemma_group_5_keeps(m4, "qbittorrent"@);
    lemma_with_numbered_keeps(m5, 100, "qbittorrent"@);
}

proof fn lemma_known_32()
    ensures
        knowledge_table().contains_key("стим"@),
        knowledge_table()["стим"@] == "steam"@,
{
    reveal_strlit("стим");
    let m1 = named_group_1(Map::<Seq<char>, Seq<char>>::empty());
    let m2 = named_group_2(m1);
    lemma_group_2_entries(m1);
    let m3 = named_group_3(m2);
    lemma_group_3_keeps(m2, "стим"@);
    let m4 = named_group_4(m3);
    lemma_group_4_keeps(m3, "стим"@);
    let m5 = named_group_5(m4);
    lemma_group_5_keeps(m4, "стим"@);
    lemma_with_numbered_keeps(m5, 100, "стим"@);
}

proof fn lemma_known_33()
    ensures
        knowledge_table().contains_key("рисование"@),
        knowledge_table()["рисование"@] == "gimp"@,
{
    reveal_strlit("рисование");
    let m1 = named_group_1(Map::<Seq<char>, Seq<char>>::empty());
    let m2 = named_group_2(m1);
    lemma_group_2_entries(m1);
    let m3 = named_group_3(m2);
    lemma_group_3_keeps(m2, "рисование"@);
    let m4 = named_group_4(m3);
    lemma_group_4_keeps(m3, "рисование"@);
    let m5 = named_group_5(m4);
    lemma_group_5_keeps(m4, "рисование"@);
    lemma_with_numbered_keeps(m5, 100, "рисование"@);
}

proof fn lemma_known_34()
    ensures
        knowledge_table().contains_key("gimp"@),
        knowledge_table()["gimp"@] == "gimp"@,
{
    reveal_strlit("gimp");
    let m1 = named_group_1(Map::<Seq<char>, Seq<char>>::empty());
    let m2 = named_group_2(m1);
    lemma_group_2_entries(m1);
    let m3 = named_group_3(m2);
    lemma_group_3_keeps(m2, "gimp"@);
    let m4 = named_group_4(m3);
    lemma_group_4_keeps(m3, "gimp"@);
    let m5 = named_group_5(m4);
    lemma_group_5_keeps(m4, "gimp"@);
    lemma_with_numbered_keeps(m5, 100, "gimp"@);
}

proof fn lemma_known_35()
    ensures
        knowledge_table().contains_key("инкскейп"@),
        knowledge_table()["инкскейп"@] == "inkscape"@,
{
    reveal_strlit("инкскейп");
    let m1 = named_group_1(Map::<Seq<char>, Seq<char>>::empty());
    let m2 = named_group_2(m1);
    lemma_group_2_entries(m1);
    let m3 = named_group_3(m2);
    lemma_group_3_keeps(m2, "инкскейп"@);
    let m4 = named_group_4(m3);
    lemma_group_4_keeps(m3, "инкскейп"@);
    let m5 = named_group_5(m4);
    lemma_group_5_keeps(m4, "инкскейп"@);
    lemma_with_numbered_keeps(m5, 100, "инкскейп"@);
}

proof fn lemma_known_36()
    ensures
        knowledge_table().contains_key("блюпури"@),
        knowledge_table()["блюпури"@] == "blueman"@,
{
    reveal_strlit("блюпури");
    let m1 = named_group_1(Map::<Seq<char>, Seq<char>>::empty());
    let m2 = named_group_2(m1);
    lemma_group_2_entries(m1);
    let m3 = named_group_3(m2);
    lemma_group_3_keeps(m2, "блюпури"@);
    let m4 = named_group_4(m3);
    lemma_group_4_keeps(m3, "блюпури"@);
    let m5 = named_group_5(m4);
    lemma_group_5_keeps(m4, "блюпури"@);
    lemma_with_numbered_keeps(m5, 100, "блюпури"@);
}

proof fn lemma_known_37()
    ensures
        knowledge_table().contains_key("блютуз"@),
        knowledge_table()["блютуз"@] == "blueman"@,
{
    reveal_strlit("блютуз");
    let m1 = named_group_1(Map::<Seq<char>, Seq<char>>::empty());
    let m2 = named_group_2(m1);
    lemma_group_2_entries(m1);
    let m3 = named_group_3(m2);
    lemma_group_3_keeps(m2, "блютуз"@);
    let m4 = named_group_4(m3);
    lemma_group_4_keeps(m3, "блютуз"@);
    let m5 = named_group_5(m4);
    lemma_group_5_keeps(m4, "блютуз"@);
    lemma_with_numbered_keeps(m5, 100, "блютуз"@);
}

proof fn lemma_known_38()
    ensures
        knowledge_table().contains_key("принтер"@),
        knowledge_table()["принтер"@] == "system-config-printer"@,
{
    reveal_strlit("принтер");
    let m1 = named_group_1(Map::<Seq<char>, Seq<char>>::empty());
    let m2 = named_group_2(m1);
    lemma_group_2_entries(m1);
    let m3 = named_group_3(m2);
    lemma_group_3_keeps(m2, "принтер"@);
    let m4 = named_group_4(m3);
    lemma_group_4_keeps(m3, "принтер"@);
    let m5 = named_group_5(m4);
    lemma_group_5_keeps(m4, "принтер"@);
    lemma_with_numbered_keeps(m5, 100, "принтер"@);
}

proof fn lemma_known_39()
    ensures
        knowledge_table().contains_key("виртуалка"@),
        knowledge_table()["виртуалка"@] == "virt-manager"@,
{
    reveal_strlit("виртуалка");
    let m1 = named_group_1(Map::<Seq<char>, Seq<char>>::empty());
    let m2 = named_group_2(m1);
    lemma_group_2_entries(m1);
    let m3 = named_group_3(m2);
    lemma_group_3_keeps(m2, "виртуалка"@);
    let m4 = named_group_4(m3);
    lemma_group_4_keeps(m3, "виртуалка"@);
    let m5 = named_group_5(m4);
    lemma_group_5_keeps(m4, "виртуалка"@);
    lemma_with_numbered_keeps(m5, 100, "виртуалка"@);
}

proof fn lemma_known_40()
    ensures
        knowledge_table().contains_key("virtualbox"@),
        knowledge_table()["virtualbox"@] == "virtualbox"@,
{
    reveal_strlit("virtualbox");
    let m1 = named_group_1(Map::<Seq<char>, Seq<char>>::empty());
    let m2 = named_group_2(m1);
    lemma_group_2_entries(m1);
    let m3 = named_group_3(m2);
    lemma_group_3_keeps(m2, "virtualbox"@);
    let m4 = named_group_4(m3);
    lemma_group_4_keeps(m3, "virtualbox"@);
    let m5 = named_group_5(m4);
    lemma_group_5_keeps(m4, "virtualbox"@);
    lemma_with_numbered_keeps(m5, 100, "virtualbox"@);
}

proof fn lemma_known_41()
    ensures
        knowledge_table().contains_key("номус"@),
        knowledge_table()["номус"@] == "qemu-desktop"@,
{
    reveal_strlit("номус");
    let m1 = named_group_1(Map::<Seq<char>, Seq<char>>::empty());
    let m2 = named_group_2(m1);
    lemma_group_2_entries(m1);
    let m3 = named_group_3(m2);
    lemma_group_3_keeps(m2, "номус"@);
    let m4 = named_group_4(m3);
    lemma_group_4_keeps(m3, "номус"@);
    let m5 = named_group_5(m4);
    lemma_group_5_keeps(m4, "номус"@);
    lemma_with_numbered_keeps(m5, 100, "номус"@);
}

proof fn lemma_known_42()
    ensures
        knowledge_table().contains_key("чат"@),
        knowledge_table()["чат"@] == "pidgin"@,
{
    reveal_strlit("чат");
    let m1 = named_group_1(Map::<Seq<char>, Seq<char>>::empty());
    let m2 = named_group_2(m1);
    lemma_group_2_entries(m1);
    let m3 = named_group_3(m2);
    lemma_group_3_keeps(m2, "чат"@);
    let m4 = named_group_4(m3);
    lemma_group_4_keeps(m3, "чат"@);
    let m5 = named_group_5(m4);
    lemma_group_5_keeps(m4, "чат"@);
    lemma_with_numbered_keeps(m5, 100, "чат"@);
}

proof fn lemma_known_43()
    ensures
        knowledge_table().contains_key("матрица"@),
        knowledge_table()["матрица"@] == "element-desktop"@,
{
    reveal_strlit("матрица");
    let m1 = named_group_1(Map::<Seq<char>, Seq<char>>::empty());
    let m2 = named_group_2(m1);
    lemma_group_2_entries(m1);
    let m3 = named_group_3(m2);
    lemma_group_3_keeps(m2, "матрица"@);
    let m4 = named_group_4(m3);
    lemma_group_4_keeps(m3, "матрица"@);
    let m5 = named_group_5(m4);
    lemma_group_5_keeps(m4, "матрица"@);
    lemma_with_numbered_keeps(m5, 100, "матрица"@);
}

proof fn lemma_known_44()
    ensures
        knowledge_table().contains_key("элемент"@),
        knowledge_table()["элемент"@] == "element-desktop"@,
{
    reveal_strlit("элемент");
    let m1 = named_group_1(Map::<Seq<char>, Seq<char>>::empty());
    let m2 = named_group_2(m1);
    lemma_group_2_entries(m1);
    let m3 = named_group_3(m2);
    lemma_group_3_keeps(m2, "элемент"@);
    let m4 = named_group_4(m3);
    lemma_group_4_keeps(m3, "элемент"@);
    let m5 = named_group_5(m4);
    lemma_group_5_keeps(m4, "элемент"@);
    lemma_with_numbered_keeps(m5, 100, "элемент"@);
}

proof fn lemma_known_45()
    ensures
        knowledge_table().contains_key("система"@),
        knowledge_table()["система"@] == "gnome-system-monitor"@,
{
    reveal_strlit("система");
    let m1 = named_group_1(Map::<Seq<char>, Seq<char>>::empty());
    let m2 = named_group_2(m1);
    let m3 = named_group_3(m2);
    lemma_group_3_entries(m2);
    let m4 = named_group_4(m3);
    lemma_group_4_keeps(m3, "система"@);
    let m5 = named_group_5(m4);
    lemma_group_5_keeps(m4, "система"@);
    lemma_with_numbered_keeps(m5, 100, "система"@);
}

proof fn lemma_known_46()
    ensures
        knowledge_table().contains_key("монитор"@),
        knowledge_table()["монитор"@] == "htop"@,
{
    reveal_strlit("монитор");
    let m1 = named_group_1(Map::<Seq<char>, Seq<char>>::empty());
    let m2 = named_group_2(m1);
    let m3 = named_group_3(m2);
    lemma_group_3_entries(m2);
    let m4 = named_group_4(m3);
    lemma_group_4_keeps(m3, "монитор"@);
    let m5 = named_group_5(m4);
    lemma_group_5_keeps(m4, "монитор"@);
    lemma_with_numbered_keeps(m5, 100, "монитор"@);
}

proof fn lemma_known_47()
    ensures
        knowledge_table().contains_key("htop"@),
        knowledge_table()["htop"@] == "htop"@,
{
    reveal_strlit("htop");
    let m1 = named_group_1(Map::<Seq<char>, Seq<char>>::empty());
    let m2 = named_group_2(m1);
    let m3 = named_group_3(m2);
    lemma_group_3_entries(m2);
    let m4 = named_group_4(m3);
    lemma_group_4_keeps(m3, "htop"@);
    let m5 = named_group_5(m4);
    lemma_group_5_keeps(m4, "htop"@);
    lemma_with_numbered_keeps(m5, 100, "htop"@);
}

proof fn lemma_known_48()
    ensures
        knowledge_table().contains_key("нейросеть"@),
        knowledge_table()["нейросеть"@] == "ollama"@,
{
    reveal_strlit("нейросеть");
    let m1 = named_group_1(Map::<Seq<char>, Seq<char>>::empty());
    let m2 = named_group_2(m1);
    let m3 = named_group_3(m2);
    lemma_group_3_entries(m2);
    let m4 = named_group_4(m3);
    lemma_group_4_keeps(m3, "нейросеть"@);
    let m5 = named_group_5(m4);
    lemma_group_5_keeps(m4, "нейросеть"@);
    lemma_with_numbered_keeps(m5, 100, "нейросеть"@);
}

proof fn lemma_known_49()
    ensures
        knowledge_table().contains_key("ollama"@),
        knowledge_table()["ollama"@] == "ollama"@,
{
    reveal_strlit("ollama");
    let m1 = named_group_1(Map::<Seq<char>, Seq<char>>::empty());
    let m2 = named_group_2(m1);
    let m3 = named_group_3(m2);
    lemma_group_3_entries(m2);
    let m4 = named_group_4(m3);
    lemma_group_4_keeps(m3, "ollama"@);
    let m5 = named_group_5(m4);
    lemma_group_5_keeps(m4, "ollama"@);
    lemma_with_numbered_keeps(m5, 100, "ollama"@);
}

proof fn lemma_known_50()
    ensures
        knowledge_table().contains_key("блендер"@),
        knowledge_table()["блендер"@] == "blender"@,
{
    reveal_strlit("блендер");
    let m1 = named_group_1(Map::<Seq<char>, Seq<char>>::empty());
    let m2 = named_group_2(m1);
    let m3 = named_group_3(m2);
    lemma_group_3_entries(m2);
    let m4 = named_group_4(m3);
    lemma_group_4_keeps(m3, "блендер"@);
    let m5 = named_group_5(m4);
    lemma_group_5_keeps(m4, "блендер"@);
    lemma_with_numbered_keeps(m5, 100, "блендер"@);
}

proof fn lemma_known_51()
    ensures
        knowledge_table().contains_key("крита"@),
        knowledge_table()["крита"@] == "krita"@,
{
    reveal_strlit("крита");
    let m1 = named_group_1(Map::<Seq<char>, Seq<char>>::empty());
    let m2 = named_group_2(m1);
    let m3 = named_group_3(m2);
    lemma_group_3_entries(m2);
    let m4 = named_group_4(m3);
    lemma_group_4_keeps(m3, "крита"@);
    let m5 = named_group_5(m4);
    lemma_group_5_keeps(m4, "крита"@);
    lemma_with_numbered_keeps(m5, 100, "крита"@);
}

proof fn lemma_known_52()
    ensures
        knowledge_table().contains_key("darktable"@),
        knowledge_table()["darktable"@] == "darktable"@,
{
    reveal_strlit("darktable");
    let m1 = named_group_1(Map::<Seq<char>, Seq<char>>::empty());
    let m2 = named_group_2(m1);
    let m3 = named_group_3(m2);
    lemma_group_3_entries(m2);
    let m4 = named_group_4(m3);
    lemma_group_4_keeps(m3, "darktable"@);
    let m5 = named_group_5(m4);
    lemma_group_5_keeps(m4, "darktable"@);
    lemma_with_numbered_keeps(m5, 100, "darktable"@);
}

proof fn lemma_known_53()
    ensures
        knowledge_table().contains_key("темная комната"@),
        knowledge_table()["темная комната"@] == "darktable"@,
{
    reveal_strlit("темная комната");
    let m1 = named_group_1(Map::<Seq<char>, Seq<char>>::empty());
    let m2 = named_group_2(m1);
    let m3 = named_group_3(m2);
    lemma_group_3_entries(m2);
    let m4 = named_group_4(m3);
    lemma_group_4_keeps(m3, "темная комната"@);
    let m5 = named_group_5(m4);
    lemma_group_5_keeps(m4, "темная комната"@);
    lemma_with_numbered_keeps(m5, 100, "темная комната"@);
}

proof fn lemma_known_54()
    ensures
        knowledge_table().contains_key("rhythmbox"@),
        knowledge_table()["rhythmbox"@] == "rhythmbox"@,
{
    reveal_strlit("rhythmbox");
    let m1 = named_group_1(Map::<Seq<char>, Seq<char>>::empty());
    let m2 = named_group_2(m1);
    let m3 = named_group_3(m2);
    lemma_group_3_entries(m2);
    let m4 = named_group_4(m3);
    lemma_group_4_keeps(m3, "rhythmbox"@);
    let m5 = named_group_5(m4);
    lemma_group_5_keeps(m4, "rhythmbox"@);
    lemma_with_numbered_keeps(m5, 100, "rhythmbox"@);
}

proof fn lemma_known_55()
    ensures
        knowledge_table().contains_key("ритмбокс"@),
        knowledge_table()["ритмбокс"@] == "rhythmbox"@,
{
    reveal_strlit("ритмбокс");
    let m1 = named_group_1(Map::<Seq<char>, Seq<char>>::empty());
    let m2 = named_group_2(m1);
    let m3 = named_group_3(m2);
    lemma_group_3_entries(m2);
    let m4 = named_group_4(m3);
    lemma_group_4_keeps(m3, "ритмбокс"@);
    let m5 = named_group_5(m4);
    lemma_group_5_keeps(m4, "ритмбокс"@);
    lemma_with_numbered_keeps(m5, 100, "ритмбокс"@);
}

proof fn lemma_known_56()
    ensures
        knowledge_table().contains_key("vlc"@),
        knowledge_table()["vlc"@] == "vlc"@,
{
    reveal_strlit("vlc");
    let m1 = named_group_1(Map::<Seq<char>, Seq<char>>::empty());
    let m2 = named_group_2(m1);
    let m3 = named_group_3(m2);
    lemma_group_3_entries(m2);
    let m4 = named_group_4(m3);
    lemma_group_4_keeps(m3, "vlc"@);
    let m5 = named_group_5(m4);
    lemma_group_5_keeps(m4, "vlc"@);
    lemma_with_numbered_keeps(m5, 100, "vlc"@);
}

proof fn lemma_known_57()
    ensures
        knowledge_table().contains_key("вэлси"@),
        knowledge_table()["вэлси"@] == "vlc"@,
{
    reveal_strlit("вэлси");
    let m1 = named_group_1(Map::<Seq<char>, Seq<char>>::empty());
    let m2 = named_group_2(m1);
    let m3 = named_group_3(m2);
    lemma_group_3_entries(m2);
    let m4 = named_group_4(m3);
    lemma_group_4_keeps(m3, "вэлси"@);
    let m5 = named_group_5(m4);
    lemma_group_5_keeps(m4, "вэлси"@);
    lemma_with_numbered_keeps(m5, 100, "вэлси"@);
}

proof fn lemma_known_58()
    ensures
        knowledge_table().contains_key("evince"@),
        knowledge_table()["evince"@] == "evince"@,
{
    reveal_strlit("evince");
    let m1 = named_group_1(Map::<Seq<char>, Seq<char>>::empty());
    let m2 = named_group_2(m1);
    let m3 = named_group_3(m2);
    lemma_group_3_entries(m2);
    let m4 = named_group_4(m3);
    lemma_group_4_keeps(m3, "evince"@);
    let m5 = named_group_5(m4);
    lemma_group_5_keeps(m4, "evince"@);
    lemma_with_numbered_keeps(m5, 100, "evince"@);
}

proof fn lemma_known_59()
    ensures
        knowledge_table().contains_key("пдф"@),
        knowledge_table()["пдф"@] == "evince"@,
{
    reveal_strlit("пдф");
    let m1 = named_group_1(Map::<Seq<char>, Seq<char>>::empty());
    let m2 = named_group_2(m1);
    let m3 = named_group_3(m2);
    lemma_group_3_entries(m2);
    let m4 = named_group_4(m3);
    lemma_group_4_keeps(m3, "пдф"@);
    let m5 = named_group_5(m4);
    lemma_group_5_keeps(m4, "пдф"@);
    lemma_with_numbered_keeps(m5, 100, "пдф"@);
}

proof fn lemma_known_60()
    ensures
        knowledge_table().contains_key("gparted"@),
        knowledge_table()["gparted"@] == "gparted"@,
{
    reveal_strlit("gparted");
    let m1 = named_group_1(Map::<Seq<char>, Seq<char>>::empty());
    let m2 = named_group_2(m1);
    let m3 = named_group_3(m2);
    lemma_group_3_entries(m2);
    let m4 = named_group_4(m3);
    lemma_group_4_keeps(m3, "gparted"@);
    let m5 = named_group_5(m4);
    lemma_group_5_keeps(m4, "gparted"@);
    lemma_with_numbered_keeps(m5, 100, "gparted"@);
}

proof fn lemma_known_61()
    ensures
        knowledge_table().contains_key("разметка диска"@),
        knowledge_table()["разметка диска"@] == "gparted"@,
{
    reveal_strlit("разметка диска");
    let m1 = named_group_1(Map::<Seq<char>, Seq<char>>::empty());
    let m2 = named_group_2(m1);
    let m3 = named_group_3(m2);
    lemma_group_3_entries(m2);
    let m4 = named_group_4(m3);
    lemma_group_4_keeps(m3, "разметка диска"@);
    let m5 = named_group_5(m4);
    lemma_group_5_keeps(m4, "разметка диска"@);
    lemma_with_numbered_keeps(m5, 100, "разметка диска"@);
}

proof fn lemma_known_62()
    ensures
        knowledge_table().contains_key("gnome-disks"@),
        knowledge_table()["gnome-disks"@] == "gnome-disk-utility"@,
{
    reveal_strlit("gnome-disks");
    let m1 = named_group_1(Map::<Seq<char>, Seq<char>>::empty());
    let m2 = named_group_2(m1);
    let m3 = named_group_3(m2);
    lemma_group_3_entries(m2);
    let m4 = named_group_4(m3);
    lemma_group_4_keeps(m3, "gnome-disks"@);
    let m5 = named_group_5(m4);
    lemma_group_5_keeps(m4, "gnome-disks"@);
    lemma_with_numbered_keeps(m5, 100, "gnome-disks"@);
}

proof fn lemma_known_63()
    ensures
        knowledge_table().contains_key("диски"@),
        knowledge_table()["диски"@] == "gnome-disk-utility"@,
{
    reveal_strlit("диски");
    let m1 = named_group_1(Map::<Seq<char>, Seq<char>>::empty());
    let m2 = named_group_2(m1);
    let m3 = named_group_3(m2);
    lemma_group_3_entries(m2);
    let m4 = named_group_4(m3);
    lemma_group_4_keeps(m3, "диски"@);
    let m5 = named_group_5(m4);
    lemma_group_5_keeps(m4, "диски"@);
    lemma_with_numbered_keeps(m5, 100, "диски"@);
}

proof fn lemma_known_64()
    ensures
        knowledge_table().contains_key("browser"@),
        knowledge_table()["browser"@] == "firefox"@,
{
    reveal_strlit("browser");
    let m1 = named_group_1(Map::<Seq<char>, Seq<char>>::empty());
    let m2 = named_group_2(m1);
    let m3 = named_group_3(m2);
    let m4 = named_group_4(m3);
    lemma_group_4_entries(m3);
    let m5 = named_group_5(m4);
    lemma_group_5_keeps(m4, "browser"@);
    lemma_with_numbered_keeps(m5, 100, "browser"@);
}

proof fn lemma_known_65()
    ensures
        knowledge_table().contains_key("calculator"@),
        knowledge_table()["calculator"@] == "gnome-calculator"@,
{
    reveal_strlit("calculator");
    let m1 = named_group_1(Map::<Seq<char>, Seq<char>>::empty());
    let m2 = named_group_2(m1);
    let m3 = named_group_3(m2);
    let m4 = named_group_4(m3);
    lemma_group_4_entries(m3);
    let m5 = named_group_5(m4);
    lemma_group_5_keeps(m4, "calculator"@);
    lemma_with_numbered_keeps(m5, 100, "calculator"@);
}

proof fn lemma_known_66()
    ensures
        knowledge_table().contains_key("terminal"@),
        knowledge_table()["terminal"@] == "alacritty"@,
{
    reveal_strlit("terminal");
    let m1 = named_group_1(Map::<Seq<char>, Seq<char>>::empty());
    let m2 = named_group_2(m1);
    let m3 = named_group_3(m2);
    let m4 = named_group_4(m3);
    lemma_group_4_entries(m3);
    let m5 = named_group_5(m4);
    lemma_group_5_keeps(m4, "terminal"@);
    lemma_with_numbered_keeps(m5, 100, "terminal"@);
}

proof fn lemma_known_67()
    ensures
        knowledge_table().contains_key("file manager"@),
        knowledge_table()["file manager"@] == "thunar"@,
{
    reveal_strlit("file manager");
    let m1 = named_group_1(Map::<Seq<char>, Seq<char>>::empty());
    let m2 = named_group_2(m1);
    let m3 = named_group_3(m2);
    let m4 = named_group_4(m3);
    lemma_group_4_entries(m3);
    let m5 = named_group_5(m4);
    lemma_group_5_keeps(m4, "file manager"@);
    lemma_with_numbered_keeps(m5, 100, "file manager"@);
}

proof fn lemma_known_68()
    ensures
        knowledge_table().contains_key("editor"@),
        knowledge_table()["editor"@] == "gedit"@,
{
    reveal_strlit("editor");
    let m1 = named_group_1(Map::<Seq<char>, Seq<char>>::empty());
    let m2 = named_group_2(m1);
    let m3 = named_group_3(m2);
    let m4 = named_group_4(m3);
    lemma_group_4_entries(m3);
    let m5 = named_group_5(m4);
    lemma_group_5_keeps(m4, "editor"@);
    lemma_with_numbered_keeps(m5, 100, "editor"@);
}

proof fn lemma_known_69()
    ensures
        knowledge_table().contains_key("code"@),
        knowledge_table()["code"@] == "visual-studio-code-bin"@,
{
    reveal_strlit("code");
    let m1 = named_group_1(Map::<Seq<char>, Seq<char>>::empty());
    let m2 = named_group_2(m1);
    let m3 = named_group_3(m2);
    let m4 = named_group_4(m3);
    lemma_group_4_entries(m3);
    let m5 = named_group_5(m4);
    lemma_group_5_keeps(m4, "code"@);
    lemma_with_numbered_keeps(m5, 100, "code"@);
}

proof fn lemma_known_70()
    ensures
        knowledge_table().contains_key("discord"@),
        knowledge_table()["discord"@] == "discord"@,
{
    reveal_strlit("discord");
    let m1 = named_group_1(Map::<Seq<char>, Seq<char>>::empty());
    let m2 = named_group_2(m1);
    let m3 = named_group_3(m2);
    let m4 = named_group_4(m3);
    lemma_group_4_entries(m3);
    let m5 = named_group_5(m4);
    lemma_group_5_keeps(m4, "discord"@);
    lemma_with_numbered_keeps(m5, 100, "discord"@);
}

proof fn lemma_known_71()
    ensures
        knowledge_table().contains_key("spotify"@),
        knowledge_table()["spotify"@] == "spotify"@,
{
    reveal_strlit("spotify");
    let m1 = named_group_1(Map::<Seq<char>, Seq<char>>::empty());
    let m2 = named_group_2(m1);
    let m3 = named_group_3(m2);
    let m4 = named_group_4(m3);
    lemma_group_4_entries(m3);
    let m5 = named_group_5(m4);
    lemma_group_5_keeps(m4, "spotify"@);
    lemma_with_numbered_keeps(m5, 100, "spotify"@);
}

proof fn lemma_known_72()
    ensures
        knowledge_table().contains_key("video player"@),
        knowledge_table()["video player"@] == "mpv"@,
{
    reveal_strlit("video player");
    let m1 = named_group_1(Map::<Seq<char>, Seq<char>>::empty());
    let m2 = named_group_2(m1);
    let m3 = named_group_3(m2);
    let m4 = named_group_4(m3);
    lemma_group_4_entries(m3);
    let m5 = named_group_5(m4);
    lemma_group_5_keeps(m4, "video player"@);
    lemma_with_numbered_keeps(m5, 100, "video player"@);
}

proof fn lemma_known_73()
    ensures
        knowledge_table().contains_key("audio player"@),
        knowledge_table()["audio player"@] == "audacious"@,
{
    reveal_strlit("audio player");
    let m1 = named_group_1(Map::<Seq<char>, Seq<char>>::empty());
    let m2 = named_group_2(m1);
    let m3 = named_group_3(m2);
    let m4 = named_group_4(m3);
    lemma_group_4_entries(m3);
    let m5 = named_group_5(m4);
    lemma_group_5_keeps(m4, "audio player"@);
    lemma_with_numbered_keeps(m5, 100, "audio player"@);
}

proof fn lemma_known_74()
    ensures
        knowledge_table().contains_key("screenshot"@),
        knowledge_table()["screenshot"@] == "flameshot"@,
{
    reveal_strlit("screenshot");
    let m1 = named_group_1(Map::<Seq<char>, Seq<char>>::empty());
    let m2 = named_group_2(m1);
    let m3 = named_group_3(m2);
    let m4 = named_group_4(m3);
    lemma_group_4_entries(m3);
    let m5 = named_group_5(m4);
    lemma_group_5_keeps(m4, "screenshot"@);
    lemma_with_numbered_keeps(m5, 100, "screenshot"@);
}

proof fn lemma_known_75()
    ensures
        knowledge_table().contains_key("screen recorder"@),
        knowledge_table()["screen recorder"@] == "obs-studio"@,
{
    reveal_strlit("screen recorder");
    let m1 = named_group_1(Map::<Seq<char>, Seq<char>>::empty());
    let m2 = named_group_2(m1);
    let m3 = named_group_3(m2);
    let m4 = named_group_4(m3);
    lemma_group_4_entries(m3);
    let m5 = named_group_5(m4);
    lemma_group_5_keeps(m4, "screen recorder"@);
    lemma_with_numbered_keeps(m5, 100, "screen recorder"@);
}

proof fn lemma_known_76()
    ensures
        knowledge_table().contains_key("git"@),
        knowledge_table()["git"@] == "git"@,
{
    reveal_strlit("git");
    let m1 = named_group_1(Map::<Seq<char>, Seq<char>>::empty());
    let m2 = named_group_2(m1);
    let m3 = named_group_3(m2);
    let m4 = named_group_4(m3);
    lemma_group_4_entries(m3);
    let m5 = named_group_5(m4);
    lemma_group_5_keeps(m4, "git"@);
    lemma_with_numbered_keeps(m5, 100, "git"@);
}

proof fn lemma_known_77()
    ensures
        knowledge_table().contains_key("docker"@),
        knowledge_table()["docker"@] == "docker"@,
{
    reveal_strlit("docker");
    let m1 = named_group_1(Map::<Seq<char>, Seq<char>>::empty());
    let m2 = named_group_2(m1);
    let m3 = named_group_3(m2);
    let m4 = named_group_4(m3);
    lemma_group_4_entries(m3);
    let m5 = named_group_5(m4);
    lemma_group_5_keeps(m4, "docker"@);
    lemma_with_numbered_keeps(m5, 100, "docker"@);
}

proof fn lemma_known_78()
    ensures
        knowledge_table().contains_key("office"@),
        knowledge_table()["office"@] == "libreoffice-fresh"@,
{
    reveal_strlit("office");
    let m1 = named_group_1(Map::<Seq<char>, Seq<char>>::empty());
    let m2 = named_group_2(m1);
    let m3 = named_group_3(m2);
    let m4 = named_group_4(m3);
    lemma_group_4_entries(m3);
    let m5 = named_group_5(m4);
    lemma_group_5_keeps(m4, "office"@);
    lemma_with_numbered_keeps(m5, 100, "office"@);
}

proof fn lemma_known_79()
    ensures
        knowledge_table().contains_key("email"@),
        knowledge_table()["email"@] == "thunderbird"@,
{
    reveal_strlit("email");
    let m1 = named_group_1(Map::<Seq<char>, Seq<char>>::empty());
    let m2 = named_group_2(m1);
    let m3 = named_group_3(m2);
    let m4 = named_group_4(m3);
    let m5 = named_group_5(m4);
    lemma_group_5_entries(m4);
    lemma_with_numbered_keeps(m5, 100, "email"@);
}

proof fn lemma_known_80()
    ensures
        knowledge_table().contains_key("torrent"@),
        knowledge_table()["torrent"@] == "qbittorrent"@,
{
    reveal_strlit("torrent");
    let m1 = named_group_1(Map::<Seq<char>, Seq<char>>::empty());
    let m2 = named_group_2(m1);
    let m3 = named_group_3(m2);
    let m4 = named_group_4(m3);
    let m5 = named_group_5(m4);
    lemma_group_5_entries(m4);
    lemma_with_numbered_keeps(m5, 100, "torrent"@);
}

proof fn lemma_known_81()
    ensures
        knowledge_table().contains_key("steam"@),
        knowledge_table()["steam"@] == "steam"@,
{
    reveal_strlit("steam");
    let m1 = named_group_1(Map::<Seq<char>, Seq<char>>::empty());
    let m2 = named_group_2(m1);
    let m3 = named_group_3(m2);
    let m4 = named_group_4(m3);
    let m5 = named_group_5(m4);
    lemma_group_5_entries(m4);
    lemma_with_numbered_keeps(m5, 100, "steam"@);
}

proof fn lemma_known_82()
    ensures
        knowledge_table().contains_key("drawing"@),
        knowledge_table()["drawing"@] == "gimp"@,
{
    reveal_strlit("drawing");
    let m1 = named_group_1(Map::<Seq<char>, Seq<char>>::empty());
    let m2 = named_group_2(m1);
    let m3 = named_group_3(m2);
    let m4 = named_group_4(m3);
    let m5 = named_group_5(m4);
    lemma_group_5_entries(m4);
    lemma_with_numbered_keeps(m5, 100, "drawing"@);
}

proof fn lemma_known_83()
    ensures
        knowledge_table().contains_key("bluetooth"@),
        knowledge_table()["bluetooth"@] == "blueman"@,
{
    reveal_strlit("bluetooth");
    let m1 = named_group_1(Map::<Seq<char>, Seq<char>>::empty());
    let m2 = named_group_2(m1);
    let m3 = named_group_3(m2);
    let m4 = named_group_4(m3);
    let m5 = named_group_5(m4);
    lemma_group_5_entries(m4);
    lemma_with_numbered_keeps(m5, 100, "bluetooth"@);
}

proof fn lemma_known_84()
    ensures
        knowledge_table().contains_key("printer"@),
        knowledge_table()["printer"@] == "system-config-printer"@,
{
    reveal_strlit("printer");
    let m1 = named_group_1(Map::<Seq<char>, Seq<char>>::empty());
    let m2 = named_group_2(m1);
    let m3 = named_group_3(m2);
    let m4 = named_group_4(m3);
    let m5 = named_group_5(m4);
    lemma_group_5_entries(m4);
    lemma_with_numbered_keeps(m5, 100, "printer"@);
}

proof fn lemma_known_85()
    ensures
        knowledge_table().contains_key("virtual machine"@),
        knowledge_table()["virtual machine"@] == "virt-manager"@,
{
    reveal_strlit("virtual machine");
    let m1 = named_group_1(Map::<Seq<char>, Seq<char>>::empty());
    let m2 = named_group_2(m1);
    let m3 = named_group_3(m2);
    let m4 = named_group_4(m3);
    let m5 = named_group_5(m4);
    lemma_group_5_entries(m4);
    lemma_with_numbered_keeps(m5, 100, "virtual machine"@);
}

proof fn lemma_known_86()
    ensures
        knowledge_table().contains_key("chat"@),
        knowledge_table()["chat"@] == "pidgin"@,
{
    reveal_strlit("chat");
    let m1 = named_group_1(Map::<Seq<char>, Seq<char>>::empty());
    let m2 = named_group_2(m1);
    let m3 = named_group_3(m2);
    let m4 = named_group_4(m3);
    let m5 = named_group_5(m4);
    lemma_group_5_entries(m4);
    lemma_with_numbered_keeps(m5, 100, "chat"@);
}

proof fn lemma_known_87()
    ensures
        knowledge_table().contains_key("matrix"@),
        knowledge_table()["matrix"@] == "element-desktop"@,
{
    reveal_strlit("matrix");
    let m1 = named_group_1(Map::<Seq<char>, Seq<char>>::empty());
    let m2 = named_group_2(m1);
    let m3 = named_group_3(m2);
    let m4 = named_group_4(m3);
    let m5 = named_group_5(m4);
    lemma_group_5_entries(m4);
    lemma_with_numbered_keeps(m5, 100, "matrix"@);
}

proof fn lemma_known_88()
    ensures
        knowledge_table().contains_key("system monitor"@),
        knowledge_table()["system monitor"@] == "gnome-system-monitor"@,
{
    reveal_strlit("system monitor");
    let m1 = named_group_1(Map::<Seq<char>, Seq<char>>::empty());
    let m2 = named_group_2(m1);
    let m3 = named_group_3(m2);
    let m4 = named_group_4(m3);
    let m5 = named_group_5(m4);
    lemma_group_5_entries(m4);
    lemma_with_numbered_keeps(m5, 100, "system monitor"@);
}

proof fn lemma_known_89()
    ensures
        knowledge_table().contains_key("neural"@),
        knowledge_table()["neural"@] == "ollama"@,
{
    reveal_strlit("neural");
    let m1 = named_group_1(Map::<Seq<char>, Seq<char>>::empty());
    let m2 = named_group_2(m1);
    let m3 = named_group_3(m2);
    let m4 = named_group_4(m3);
    let m5 = named_group_5(m4);
    lemma_group_5_entries(m4);
    lemma_with_numbered_keeps(m5, 100, "neural"@);
}

proof fn lemma_known_90()
    ensures
        knowledge_table().contains_key("blender"@),
        knowledge_table()["blender"@] == "blender"@,
{
    reveal_strlit("blender");
    let m1 = named_group_1(Map::<Seq<char>, Seq<char>>::empty());
    let m2 = named_group_2(m1);
    let m3 = named_group_3(m2);
    let m4 = named_group_4(m3);
    let m5 = named_group_5(m4);
    lemma_group_5_entries(m4);
    lemma_with_numbered_keeps(m5, 100, "blender"@);
}

proof fn lemma_known_91()
    ensures
        knowledge_table().contains_key("krita"@),
        knowledge_table()["krita"@] == "krita"@,
{
    reveal_strlit("krita");
    let m1 = named_group_1(Map::<Seq<char>, Seq<char>>::empty());
    let m2 = named_group_2(m1);
    let m3 = named_group_3(m2);
    let m4 = named_group_4(m3);
    let m5 = named_group_5(m4);
    lemma_group_5_entries(m4);
    lemma_with_numbered_keeps(m5, 100, "krita"@);
}

proof fn lemma_known_92()
    ensures
        knowledge_table().contains_key("pdf"@),
        knowledge_table()["pdf"@] == "evince"@,
{
    reveal_strlit("pdf");
    let m1 = named_group_1(Map::<Seq<char>, Seq<char>>::empty());
    let m2 = named_group_2(m1);
    let m3 = named_group_3(m2);
    let m4 = named_group_4(m3);
    let m5 = named_group_5(m4);
    lemma_group_5_entries(m4);
    lemma_with_numbered_keeps(m5, 100, "pdf"@);
}

proof fn lemma_known_93()
    ensures
        knowledge_table().contains_key("disk"@),
        knowledge_table()["disk"@] == "gnome-disk-utility"@,
{
    reveal_strlit("disk");
    let m1 = named_group_1(Map::<Seq<char>, Seq<char>>::empty());
    let m2 = named_group_2(m1);
    let m3 = named_group_3(m2);
    let m4 = named_group_4(m3);
    let m5 = named_group_5(m4);
    lemma_group_5_entries(m4);
    lemma_with_numbered_keeps(m5, 100, "disk"@);
}

/// Every application that the table names in words is known, with its
/// package: for a name given more than once, the package given last.
pub proof fn lemma_named_applications_known()
    ensures
        knowledge_table().contains_key("телеграм"@) && knowledge_table()["телеграм"@] == "telegram-desktop"@,
        knowledge_table().contains_key("telegram"@) && knowledge_table()["telegram"@] == "telegram-desktop"@,
        knowledge_table().contains_key("браузер"@) && knowledge_table()["браузер"@] == "firefox"@,
        knowledge_table().contains_key("firefox"@) && knowledge_table()["firefox"@] == "firefox"@,
        knowledge_table().contains_key("калькулятор"@) && knowledge_table()["калькулятор"@] == "gnome-calculator"@,
        knowledge_table().contains_key("терминал"@) && knowledge_table()["терминал"@] == "alacritty"@,
        knowledge_table().contains_key("alacritty"@) && knowledge_table()["alacritty"@] == "alacritty"@,
        knowledge_table().contains_key("файловый менеджер"@) && knowledge_table()["файловый менеджер"@] == "thunar"@,
        knowledge_table().contains_key("проводник"@) && knowledge_table()["проводник"@] == "thunar"@,
        knowledge_table().contains_key("редактор"@) && knowledge_table()["редактор"@] == "gedit"@,
        knowledge_table().contains_key("блокнот"@) && knowledge_table()["блокнот"@] == "gedit"@,
        knowledge_table().contains_key("код"@) && knowledge_table()["код"@] == "visual-studio-code-bin"@,
        knowledge_table().contains_key("vscode"@) && knowledge_table()["vscode"@] == "visual-studio-code-bin"@,
        knowledge_table().contains_key("дискорд"@) && knowledge_table()["дискорд"@] == "discord"@,
        knowledge_table().contains_key("спотифай"@) && knowledge_table()["спотифай"@] == "spotify"@,
        knowledge_table().contains_key("видеоплеер"@) && knowledge_table()["видеоплеер"@] == "mpv"@,
        knowledge_table().contains_key("mpv"@) && knowledge_table()["mpv"@] == "mpv"@,
        knowledge_table().contains_key("аудиоплеер"@) && knowledge_table()["аудиоплеер"@] == "audacious"@,
        knowledge_table().contains_key("образ диска"@) && knowledge_table()["образ диска"@] == "balena-etcher"@,
        knowledge_table().contains_key("архиватор"@) && knowledge_table()["архиватор"@] == "file-roller"@,
        knowledge_table().contains_key("скриншот"@) && knowledge_table()["скриншот"@] == "flameshot"@,
        knowledge_table().contains_key("flameshot"@) && knowledge_table()["flameshot"@] == "flameshot"@,
        knowledge_table().contains_key("запись экрана"@) && knowledge_table()["запись экрана"@] == "obs-studio"@,
        knowledge_table().contains_key("obs"@) && knowledge_table()["obs"@] == "obs-studio"@,
        knowledge_table().contains_key("гит"@) && knowledge_table()["гит"@] == "git"@,
        knowledge_table().contains_key("докер"@) && knowledge_table()["докер"@] == "docker"@,
        knowledge_table().contains_key("компас"@) && knowledge_table()["компас"@] == "libreoffice"@,
        knowledge_table().contains_key("офис"@) && knowledge_table()["офис"@] == "libreoffice-fresh"@,
        knowledge_table().contains_key("почта"@) && knowledge_table()["почта"@] == "thunderbird"@,
        knowledge_table().contains_key("thunderbird"@) && knowledge_table()["thunderbird"@] == "thunderbird"@,
        knowledge_table().contains_key("торрент"@) && knowledge_table()["торрент"@] == "qbittorrent"@,
        knowledge_table().contains_key("qbittorrent"@) && knowledge_table()["qbittorrent"@] == "qbittorrent"@,
        knowledge_table().contains_key("стим"@) && knowledge_table()["стим"@] == "steam"@,
        knowledge_table().contains_key("рисование"@) && knowledge_table()["рисование"@] == "gimp"@,
        knowledge_table().contains_key("gimp"@) && knowledge_table()["gimp"@] == "gimp"@,
        knowledge_table().contains_key("инкскейп"@) && knowledge_table()["инкскейп"@] == "inkscape"@,
        knowledge_table().contains_key("блюпури"@) && knowledge_table()["блюпури"@] == "blueman"@,
        knowledge_table().contains_key("блютуз"@) && knowledge_table()["блютуз"@] == "blueman"@,
        knowledge_table().contains_key("принтер"@) && knowledge_table()["принтер"@] == "system-config-printer"@,
        knowledge_table().contains_key("виртуалка"@) && knowledge_table()["виртуалка"@] == "virt-manager"@,
        knowledge_table().contains_key("virtualbox"@) && knowledge_table()["virtualbox"@] == "virtualbox"@,
        knowledge_table().contains_key("номус"@) && knowledge_table()["номус"@] == "qemu-desktop"@,
        knowledge_table().contains_key("чат"@) && knowledge_table()["чат"@] == "pidgin"@,
        knowledge_table().contains_key("матрица"@) && knowledge_table()["матрица"@] == "element-desktop"@,
        knowledge_table().contains_key("элемент"@) && knowledge_table()["элемент"@] == "element-desktop"@,
        knowledge_table().contains_key("система"@) && knowledge_table()["система"@] == "gnome-system-monitor"@,
        knowledge_table().contains_key("монитор"@) && knowledge_table()["монитор"@] == "htop"@,
        knowledge_table().contains_key("htop"@) && knowledge_table()["htop"@] == "htop"@,
        knowledge_table().contains_key("нейросеть"@) && knowledge_table()["нейросеть"@] == "ollama"@,
        knowledge_table().contains_key("ollama"@) && knowledge_table()["ollama"@] == "ollama"@,
        knowledge_table().contains_key("блендер"@) && knowledge_table()["блендер"@] == "blender"@,
        knowledge_table().contains_key("крита"@) && knowledge_table()["крита"@] == "krita"@,
        knowledge_table().contains_key("darktable"@) && knowledge_table()["darktable"@] == "darktable"@,
        knowledge_table().contains_key("темная комната"@) && knowledge_table()["темная комната"@] == "darktable"@,
        knowledge_table().contains_key("rhythmbox"@) && knowledge_table()["rhythmbox"@] == "rhythmbox"@,
        knowledge_table().contains_key("ритмбокс"@) && knowledge_table()["ритмбокс"@] == "rhythmbox"@,
        knowledge_table().contains_key("vlc"@) && knowledge_table()["vlc"@] == "vlc"@,
        knowledge_table().contains_key("вэлси"@) && knowledge_table()["вэлси"@] == "vlc"@,
        knowledge_table().contains_key("evince"@) && knowledge_table()["evince"@] == "evince"@,
        knowledge_table().contains_key("пдф"@) && knowledge_table()["пдф"@] == "evince"@,
        knowledge_table().contains_key("gparted"@) && knowledge_table()["gparted"@] == "gparted"@,
        knowledge_table().contains_key("разметка диска"@) && knowledge_table()["разметка диска"@] == "gparted"@,
        knowledge_table().contains_key("gnome-disks"@) && knowledge_table()["gnome-disks"@] == "gnome-disk-utility"@,
        knowledge_table().contains_key("диски"@) && knowledge_table()["диски"@] == "gnome-disk-utility"@,
        knowledge_table().contains_key("browser"@) && knowledge_table()["browser"@] == "firefox"@,
        knowledge_table().contains_key("calculator"@) && knowledge_table()["calculator"@] == "gnome-calculator"@,
        knowledge_table().contains_key("terminal"@) && knowledge_table()["terminal"@] == "alacritty"@,
        knowledge_table().contains_key("file manager"@) && knowledge_table()["file manager"@] == "thunar"@,
        knowledge_table().contains_key("editor"@) && knowledge_table()["editor"@] == "gedit"@,
        knowledge_table().contains_key("code"@) && knowledge_table()["code"@] == "visual-studio-code-bin"@,
        knowledge_table().contains_key("discord"@) && knowledge_table()["discord"@] == "discord"@,
        knowledge_table().contains_key("spotify"@) && knowledge_table()["spotify"@] == "spotify"@,
        knowledge_table().contains_key("video player"@) && knowledge_table()["video player"@] == "mpv"@,
        knowledge_table().contains_key("audio player"@) && knowledge_table()["audio player"@] == "audacious"@,
        knowledge_table().contains_key("screenshot"@) && knowledge_table()["screenshot"@] == "flameshot"@,
        knowledge_table().contains_key("screen recorder"@) && knowledge_table()["screen recorder"@] == "obs-studio"@,
        knowledge_table().contains_key("git"@) && knowledge_table()["git"@] == "git"@,
        knowledge_table().contains_key("docker"@) && knowledge_table()["docker"@] == "docker"@,
        knowledge_table().contains_key("office"@) && knowledge_table()["office"@] == "libreoffice-fresh"@,
        knowledge_table().contains_key("email"@) && knowledge_table()["email"@] == "thunderbird"@,
        knowledge_table().contains_key("torrent"@) && knowledge_table()["torrent"@] == "qbittorrent"@,
        knowledge_table().contains_key("steam"@) && knowledge_table()["steam"@] == "steam"@,
        knowledge_table().contains_key("drawing"@) && knowledge_table()["drawing"@] == "gimp"@,
        knowledge_table().contains_key("bluetooth"@) && knowledge_table()["bluetooth"@] == "blueman"@,
        knowledge_table().contains_key("printer"@) && knowledge_table()["printer"@] == "system-config-printer"@,
        knowledge_table().contains_key("virtual machine"@) && knowledge_table()["virtual machine"@] == "virt-manager"@,
        knowledge_table().contains_key("chat"@) && knowledge_table()["chat"@] == "pidgin"@,
        knowledge_table().contains_key("matrix"@) && knowledge_table()["matrix"@] == "element-desktop"@,
        knowledge_table().contains_key("system monitor"@) && knowledge_table()["system monitor"@] == "gnome-system-monitor"@,
        knowledge_table().contains_key("neural"@) && knowledge_table()["neural"@] == "ollama"@,
        knowledge_table().contains_key("blender"@) && knowledge_table()["blender"@] == "blender"@,
        knowledge_table().contains_key("krita"@) && knowledge_table()["krita"@] == "krita"@,
        knowledge_table().contains_key("pdf"@) && knowledge_table()["pdf"@] == "evince"@,
        knowledge_table().contains_key("disk"@) && knowledge_table()["disk"@] == "gnome-disk-utility"@,
{
    lemma_known_0();
    lemma_known_1();
    lemma_known_2();
    lemma_known_3();
    lemma_known_4();
    lemma_known_5();
    lemma_known_6();
    lemma_known_7();
    lemma_known_8();
    lemma_known_9();
    lemma_known_10();
    lemma_known_11();
    lemma_known_12();
    lemma_known_13();
    lemma_known_14();
    lemma_known_15();
    lemma_known_16();
    lemma_known_17();
    lemma_known_18();
    lemma_known_19();
    lemma_known_20();
    lemma_known_21();
    lemma_known_22();
    lemma_known_23();
    lemma_known_24();
    lemma_known_25();
    lemma_known_26();
    lemma_known_27();
    lemma_known_28();
    lemma_known_29();
    lemma_known_30();
    lemma_known_31();
    lemma_known_32();
    lemma_known_33();
    lemma_known_34();
    lemma_known_35();
    lemma_known_36();
    lemma_known_37();
    lemma_known_38();
    lemma_known_39();
    lemma_known_40();
    lemma_known_41();
    lemma_known_42();
    lemma_known_43();
    lemma_known_44();
    lemma_known_45();
    lemma_known_46();
    lemma_known_47();
    lemma_known_48();
    lemma_known_49();
    lemma_known_50();
    lemma_known_51();
    lemma_known_52();
    lemma_known_53();
    lemma_known_54();
    lemma_known_55();
    lemma_known_56();
    lemma_known_57();
    lemma_known_58();
    lemma_known_59();
    lemma_known_60();
    lemma_known_61();
    lemma_known_62();
    lemma_known_63();
    lemma_known_64();
    lemma_known_65();
    lemma_known_66();
    lemma_known_67();
    lemma_known_68();
    lemma_known_69();
    lemma_known_70();
    lemma_known_71();
    lemma_known_72();
    lemma_known_73();
    lemma_known_74();
    lemma_known_75();
    lemma_known_76();
    lemma_known_77();
    lemma_known_78();
    lemma_known_79();
    lemma_known_80();
    lemma_known_81();
    lemma_known_82();
    lemma_known_83();
    lemma_known_84();
    lemma_known_85();
    lemma_known_86();
    lemma_known_87();
    lemma_known_88();
    lemma_known_89();
    lemma_known_90();
    lemma_known_91();
    lemma_known_92();
    lemma_known_93();
}

} // verus!
