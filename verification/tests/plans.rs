use rootfs_pipeline::arch::{Alpine, Arch, Target};
use rootfs_pipeline::facts::Facts;
use rootfs_pipeline::pipeline::Goal;
use rootfs_pipeline::step::{Asset, Step};
use rootfs_pipeline::tool::ToolCall;

fn s(text: &str) -> String {
    text.to_string()
}

fn riscv64() -> Arch {
    Arch::new(Target::Riscv64, Alpine { website: s("https://m/v3.12/releases"), version: s("3.12.0") })
}

fn x86_64() -> Arch {
    Arch::new(Target::X86_64, Alpine { website: s("https://m/v3.12/releases"), version: s("3.12.0") })
}

fn run(program: &str, args: &[&str]) -> Step {
    let mut call = ToolCall::new(program);
    for arg in args {
        call = call.arg(arg);
    }
    Step::Run { call }
}

fn gcc(source: &str, output: &str) -> Step {
    run("gcc", &[source, "-o", output, "-Wl,--dynamic-linker=/lib/ld-musl-x86_64.so.1"])
}

fn riscv64_rebuild_uncached() -> Vec<Step> {
    vec![
        Step::ProbeDir { path: s("riscv_rootfs") },
        Step::ClearDir { path: s("riscv_rootfs") },
        Step::ProbeFile {
            asset: Asset::BaseArchive,
            path: s("prebuilt/linux/riscv64/minirootfs.tar.xz"),
        },
        Step::CreateDirs { path: s("prebuilt/linux/riscv64") },
        Step::Download {
            url: s(
                "https://github.com/rcore-os/libc-test-prebuilt/releases/download/0.1/prebuild.tar.xz",
            ),
            dest: s("prebuilt/linux/riscv64/minirootfs.tar.xz.part"),
        },
        Step::Rename {
            from: s("prebuilt/linux/riscv64/minirootfs.tar.xz.part"),
            to: s("prebuilt/linux/riscv64/minirootfs.tar.xz"),
        },
        Step::Extract {
            archive: s("prebuilt/linux/riscv64/minirootfs.tar.xz"),
            dest: s("riscv_rootfs"),
            strip: 1,
        },
        run("ln", &["-s", "busybox", "riscv_rootfs/bin/ls"]),
    ]
}

fn x86_64_rebuild_cached_archive(tests: Vec<Step>) -> Vec<Step> {
    let mut steps = vec![
        Step::ProbeDir { path: s("rootfs") },
        Step::ClearDir { path: s("rootfs") },
        Step::ProbeFile {
            asset: Asset::BaseArchive,
            path: s("prebuilt/linux/x86_64/minirootfs.tar.gz"),
        },
        Step::Extract {
            archive: s("prebuilt/linux/x86_64/minirootfs.tar.gz"),
            dest: s("rootfs"),
            strip: 0,
        },
        Step::CopyFile {
            from: s("prebuilt/linux/libc-libos.so"),
            to: s("rootfs/lib/ld-musl-x86_64.so.1"),
        },
        Step::ListDir { path: s("linux-syscall/test") },
    ];
    steps.extend(tests);
    steps
}

#[test]
fn rootfs_that_is_there_is_only_asked_for() {
    let mut facts = Facts::unknown();
    facts.rootfs_present = true;
    facts.sources = vec![s("a.c")];
    assert_eq!(riscv64().rootfs(false, &facts), vec![Step::ProbeDir { path: s("riscv_rootfs") }]);
    assert_eq!(x86_64().rootfs(false, &facts), vec![Step::ProbeDir { path: s("rootfs") }]);
}

#[test]
fn riscv64_rootfs_from_nothing() {
    let facts = Facts::unknown();
    assert_eq!(riscv64().rootfs(false, &facts), riscv64_rebuild_uncached());
    assert_eq!(riscv64().script(Goal::Rootfs { clear: false }, &facts), riscv64_rebuild_uncached());
}

#[test]
fn riscv64_rootfs_with_cached_archive() {
    let mut facts = Facts::unknown();
    facts.archive_cached = true;
    let mut expected = riscv64_rebuild_uncached();
    expected.drain(3..6);
    assert_eq!(expected.len(), 5);
    assert_eq!(riscv64().rootfs(false, &facts), expected);
}

#[test]
fn forced_rebuild_ignores_what_is_there() {
    let mut facts = Facts::unknown();
    facts.rootfs_present = true;
    assert_eq!(riscv64().rootfs(true, &facts), riscv64_rebuild_uncached());
    facts.rootfs_present = false;
    assert_eq!(riscv64().rootfs(true, &facts), riscv64_rebuild_uncached());
    facts.rootfs_present = true;
    facts.archive_cached = true;
    assert_eq!(
        x86_64().rootfs(true, &facts),
        x86_64_rebuild_cached_archive(vec![])
    );
}

#[test]
fn x86_64_rootfs_downloads_from_the_mirror() {
    let facts = Facts::unknown();
    let steps = x86_64().rootfs(false, &facts);
    assert_eq!(steps.len(), 9);
    assert_eq!(steps[3], Step::CreateDirs { path: s("prebuilt/linux/x86_64") });
    assert_eq!(
        steps[4],
        Step::Download {
            url: s("https://m/v3.12/releases/x86_64/alpine-minirootfs-3.12.0-x86_64.tar.gz"),
            dest: s("prebuilt/linux/x86_64/minirootfs.tar.gz.part"),
        }
    );
    assert_eq!(
        steps[5],
        Step::Rename {
            from: s("prebuilt/linux/x86_64/minirootfs.tar.gz.part"),
            to: s("prebuilt/linux/x86_64/minirootfs.tar.gz"),
        }
    );
}

#[test]
fn x86_64_rootfs_compiles_each_c_source() {
    let mut facts = Facts::unknown();
    facts.archive_cached = true;
    facts.sources = vec![
        s("hello.c"),
        s("README.md"),
        s("pipe.test.c"),
        s(".c"),
        s("util.h"),
        s("x.cc"),
        s("x.c.bak"),
        s("c"),
    ];
    let expected = x86_64_rebuild_cached_archive(vec![
        gcc("linux-syscall/test/hello.c", "rootfs/bin/hello"),
        gcc("linux-syscall/test/pipe.test.c", "rootfs/bin/pipe.test"),
    ]);
    assert_eq!(x86_64().rootfs(false, &facts), expected);
    assert_eq!(
        x86_64().compile_all(&facts.sources),
        vec![
            gcc("linux-syscall/test/hello.c", "rootfs/bin/hello"),
            gcc("linux-syscall/test/pipe.test.c", "rootfs/bin/pipe.test"),
        ]
    );
    assert_eq!(x86_64().compile_all(&vec![]), vec![]);
}

#[test]
fn rootfs_parts() {
    let mut facts = Facts::unknown();
    facts.archive_cached = true;
    assert_eq!(
        riscv64().fetch_archive(&facts),
        vec![Step::ProbeFile {
            asset: Asset::BaseArchive,
            path: s("prebuilt/linux/riscv64/minirootfs.tar.xz"),
        }]
    );
    assert_eq!(riscv64().patch(&facts), vec![run("ln", &["-s", "busybox", "riscv_rootfs/bin/ls"])]);
    assert_eq!(riscv64().link_ls(), run("ln", &["-s", "busybox", "riscv_rootfs/bin/ls"]));
    assert_eq!(
        x86_64().install_shim(),
        Step::CopyFile {
            from: s("prebuilt/linux/libc-libos.so"),
            to: s("rootfs/lib/ld-musl-x86_64.so.1"),
        }
    );
    assert_eq!(
        x86_64().unpack_into("/tmp/rootfs", 0),
        Step::Extract {
            archive: s("prebuilt/linux/x86_64/minirootfs.tar.gz"),
            dest: s("/tmp/rootfs"),
            strip: 0,
        }
    );
    assert_eq!(x86_64().compile("x.c"), gcc("linux-syscall/test/x.c", "rootfs/bin/x"));
    let mut all = vec![Step::ProbeDir { path: s("riscv_rootfs") }];
    all.extend(riscv64().rebuild(&facts));
    assert_eq!(riscv64().rootfs(true, &facts), all);
}

fn toolchain_steps(cached: bool) -> Vec<Step> {
    let mut steps = vec![Step::ProbeFile {
        asset: Asset::Toolchain,
        path: s("ignored/riscv64-linux-musl-cross.tgz"),
    }];
    if !cached {
        steps.push(Step::CreateDirs { path: s("ignored") });
        steps.push(Step::Download {
            url: s("https://musl.cc/riscv64-linux-musl-cross.tgz"),
            dest: s("ignored/riscv64-linux-musl-cross.tgz.part"),
        });
        steps.push(Step::Rename {
            from: s("ignored/riscv64-linux-musl-cross.tgz.part"),
            to: s("ignored/riscv64-linux-musl-cross.tgz"),
        });
    }
    steps.push(Step::RemoveDir { path: s("ignored/riscv64-linux-musl-cross") });
    steps.push(Step::Extract {
        archive: s("ignored/riscv64-linux-musl-cross.tgz"),
        dest: s("ignored"),
        strip: 0,
    });
    steps.push(Step::ReadSearchPath);
    steps
}

#[test]
fn toolchain_is_unpacked_afresh_every_time() {
    let mut facts = Facts::unknown();
    assert_eq!(facts.provision(), toolchain_steps(false));
    facts.toolchain_cached = true;
    assert_eq!(facts.provision(), toolchain_steps(true));
}

#[test]
fn search_path_ends_in_the_toolchain() {
    let mut facts = Facts::unknown();
    facts.current_dir = s("/work/zcore");
    assert_eq!(facts.cross_search_path(), "/work/zcore/ignored/riscv64-linux-musl-cross/bin");
    facts.search_path = Some(s("/usr/bin:/bin"));
    assert_eq!(
        facts.cross_search_path(),
        "/usr/bin:/bin:/work/zcore/ignored/riscv64-linux-musl-cross/bin"
    );
    facts.search_path = Some(s(""));
    assert_eq!(facts.cross_search_path(), ":/work/zcore/ignored/riscv64-linux-musl-cross/bin");
}

#[test]
fn riscv64_libc_test() {
    let mut facts = Facts::unknown();
    facts.rootfs_present = true;
    facts.toolchain_cached = true;
    facts.search_path = Some(s("/usr/bin"));
    facts.current_dir = s("/w");
    let mut expected = vec![
        Step::ProbeDir { path: s("riscv_rootfs") },
        Step::CloneRepo {
            repo: s("https://github.com/rcore-os/libc-test.git"),
            dest: s("ignored/libc-test"),
        },
        Step::Rename { from: s("riscv_rootfs/libc-test"), to: s("riscv_rootfs/libc-test-prebuild") },
        Step::CopyDir { from: s("ignored/libc-test"), to: s("riscv_rootfs/libc-test") },
        Step::CopyFile {
            from: s("riscv_rootfs/libc-test/config.mak.def"),
            to: s("riscv_rootfs/libc-test/config.mak"),
        },
    ];
    expected.extend(toolchain_steps(true));
    expected.push(Step::Run {
        call: ToolCall::new("make")
            .arg("-j")
            .env("ARCH", "riscv64")
            .env("CROSS_COMPILE", "riscv64-linux-musl-")
            .env("PATH", "/usr/bin:/w/ignored/riscv64-linux-musl-cross/bin")
            .current_dir("riscv_rootfs/libc-test"),
    });
    expected.push(Step::CopyFile {
        from: s("riscv_rootfs/libc-test-prebuild/functional/tls_align-static.exe"),
        to: s("riscv_rootfs/libc-test/src/functional/tls_align-static.exe"),
    });
    expected.push(Step::RemoveDir { path: s("riscv_rootfs/libc-test-prebuild") });
    assert_eq!(riscv64().libc_test(&facts), expected);
    assert_eq!(riscv64().script(Goal::LibcTest, &facts), expected);
    assert_eq!(riscv64().integrate(&facts), expected[2..].to_vec_of_steps());
}

trait ToSteps {
    fn to_vec_of_steps(&self) -> Vec<Step>;
}

impl ToSteps for [Step] {
    fn to_vec_of_steps(&self) -> Vec<Step> {
        self.iter().map(copy_step).collect()
    }
}

fn copy_step(step: &Step) -> Step {
    match step {
        Step::ProbeDir { path } => Step::ProbeDir { path: path.clone() },
        Step::ProbeFile { asset, path } => Step::ProbeFile { asset: *asset, path: path.clone() },
        Step::ListDir { path } => Step::ListDir { path: path.clone() },
        Step::ReadSearchPath => Step::ReadSearchPath,
        Step::ClearDir { path } => Step::ClearDir { path: path.clone() },
        Step::RemoveDir { path } => Step::RemoveDir { path: path.clone() },
        Step::CreateDirs { path } => Step::CreateDirs { path: path.clone() },
        Step::Download { url, dest } => Step::Download { url: url.clone(), dest: dest.clone() },
        Step::CloneRepo { repo, dest } => Step::CloneRepo { repo: repo.clone(), dest: dest.clone() },
        Step::Extract { archive, dest, strip } => {
            Step::Extract { archive: archive.clone(), dest: dest.clone(), strip: *strip }
        }
        Step::Run { call } => Step::Run { call: call.duplicate() },
        Step::CopyFile { from, to } => Step::CopyFile { from: from.clone(), to: to.clone() },
        Step::CopyDir { from, to } => Step::CopyDir { from: from.clone(), to: to.clone() },
        Step::Rename { from, to } => Step::Rename { from: from.clone(), to: to.clone() },
        Step::Append { path, text } => Step::Append { path: path.clone(), text: text.clone() },
        Step::Pack { dir, image, capacity } => {
            Step::Pack { dir: dir.clone(), image: image.clone(), capacity: *capacity }
        }
        Step::Resize { image, padding } => Step::Resize { image: image.clone(), padding: *padding },
    }
}

#[test]
fn x86_64_libc_test() {
    let mut facts = Facts::unknown();
    facts.rootfs_present = true;
    let expected = vec![
        Step::ProbeDir { path: s("rootfs") },
        Step::CloneRepo {
            repo: s("https://github.com/rcore-os/libc-test.git"),
            dest: s("ignored/libc-test"),
        },
        Step::RemoveDir { path: s("rootfs/libc-test") },
        Step::CopyDir { from: s("ignored/libc-test"), to: s("rootfs/libc-test") },
        Step::CopyFile {
            from: s("rootfs/libc-test/config.mak.def"),
            to: s("rootfs/libc-test/config.mak"),
        },
        Step::Append {
            path: s("rootfs/libc-test/config.mak"),
            text: s("CC := musl-gcc\nAR := ar\nRANLIB := ranlib"),
        },
        Step::Run { call: ToolCall::new("make").arg("-j").current_dir("rootfs/libc-test") },
    ];
    assert_eq!(x86_64().libc_test(&facts), expected);
}

#[test]
fn libc_test_builds_the_rootfs_first_where_it_is_missing() {
    let facts = Facts::unknown();
    let steps = riscv64().libc_test(&facts);
    let rootfs = riscv64_rebuild_uncached();
    assert_eq!(steps[..rootfs.len()].to_vec_of_steps(), rootfs);
    assert_eq!(
        steps[rootfs.len()],
        Step::CloneRepo {
            repo: s("https://github.com/rcore-os/libc-test.git"),
            dest: s("ignored/libc-test"),
        }
    );
    assert_eq!(steps.len(), rootfs.len() + 1 + 3 + 7 + 3);
}

#[test]
fn riscv64_image() {
    let mut facts = Facts::unknown();
    facts.rootfs_present = true;
    let expected = vec![
        Step::ProbeDir { path: s("riscv_rootfs") },
        Step::Pack {
            dir: s("riscv_rootfs"),
            image: s("zCore/riscv64.img"),
            capacity: 0x4000_0000,
        },
        Step::Resize { image: s("zCore/riscv64.img"), padding: 5 },
    ];
    assert_eq!(riscv64().image(&facts), expected);
    assert_eq!(riscv64().script(Goal::Image, &facts), expected);
    assert_eq!(riscv64().pack(), copy_step(&expected[1]));
    assert_eq!(riscv64().resize(), copy_step(&expected[2]));
}

fn x86_64_swap_and_pack() -> Vec<Step> {
    vec![
        Step::ClearDir { path: s("/tmp/rootfs") },
        Step::Extract {
            archive: s("prebuilt/linux/x86_64/minirootfs.tar.gz"),
            dest: s("/tmp/rootfs"),
            strip: 0,
        },
        Step::CopyFile {
            from: s("/tmp/rootfs/lib/ld-musl-x86_64.so.1"),
            to: s("rootfs/lib/ld-musl-x86_64.so.1"),
        },
        Step::Pack { dir: s("rootfs"), image: s("zCore/x86_64.img"), capacity: 1 << 30 },
        Step::CopyFile {
            from: s("prebuilt/linux/libc-libos.so"),
            to: s("rootfs/lib/ld-musl-x86_64.so.1"),
        },
        Step::Resize { image: s("zCore/x86_64.img"), padding: 5 },
        Step::RemoveDir { path: s("/tmp/rootfs") },
    ]
}

#[test]
fn x86_64_image_of_a_rootfs_that_is_there() {
    let mut facts = Facts::unknown();
    facts.rootfs_present = true;
    facts.archive_cached = true;
    let mut expected = vec![
        Step::ProbeDir { path: s("rootfs") },
        Step::ProbeFile {
            asset: Asset::BaseArchive,
            path: s("prebuilt/linux/x86_64/minirootfs.tar.gz"),
        },
    ];
    expected.extend(x86_64_swap_and_pack());
    assert_eq!(x86_64().image(&facts), expected);
    facts.archive_cached = false;
    assert_eq!(x86_64().image(&facts).len(), expected.len() + 3);
    assert_eq!(x86_64().assemble(&facts)[4..].to_vec_of_steps(), x86_64_swap_and_pack());
}

#[test]
fn x86_64_image_after_building_the_rootfs() {
    let mut facts = Facts::unknown();
    facts.archive_cached = true;
    facts.sources = vec![s("t.c")];
    let mut expected =
        x86_64_rebuild_cached_archive(vec![gcc("linux-syscall/test/t.c", "rootfs/bin/t")]);
    expected.extend(x86_64_swap_and_pack());
    assert_eq!(x86_64().image(&facts), expected);
    assert_eq!(x86_64().assemble(&facts), x86_64_swap_and_pack());
}

#[test]
fn x86_64_image_changes_one_file_of_the_rootfs() {
    for present in [true, false] {
        for cached in [true, false] {
            let mut facts = Facts::unknown();
            facts.rootfs_present = present;
            facts.archive_cached = cached;
            for step in x86_64().assemble(&facts) {
                match &step {
                    Step::CopyFile { to, .. } => assert_eq!(to, "rootfs/lib/ld-musl-x86_64.so.1"),
                    Step::ClearDir { path } | Step::RemoveDir { path } => {
                        assert_eq!(path, "/tmp/rootfs")
                    }
                    Step::CreateDirs { path } => assert_eq!(path, "prebuilt/linux/x86_64"),
                    Step::Download { dest, .. } => assert!(dest.starts_with("prebuilt/")),
                    Step::Rename { from, to } => {
                        assert!(from.starts_with("prebuilt/") && to.starts_with("prebuilt/"))
                    }
                    Step::Extract { dest, .. } => assert_eq!(dest, "/tmp/rootfs"),
                    Step::Pack { dir, image, .. } => {
                        assert_eq!(dir, "rootfs");
                        assert_eq!(image, "zCore/x86_64.img");
                    }
                    Step::Resize { image, .. } => assert_eq!(image, "zCore/x86_64.img"),
                    Step::ProbeFile { .. } => {}
                    other => panic!("{:?}", other),
                }
            }
        }
    }
}
